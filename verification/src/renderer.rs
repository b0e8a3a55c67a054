//! The render pipeline: its passes, their resources and the frame loop.
//!
//! A frame is put together in steps. The renderer says what is to be done
//! next, the caller does it on the graphics device and reports back, and the
//! renderer decides again. The background pass is submitted first, then the
//! model pass, then the post-process pass, and the image of the surface is
//! presented last.

pub mod camera;
pub mod field;
pub mod fullscreen_quad;
pub mod layout;
pub mod model;
pub mod post_process;
pub mod resource;
pub mod texture_manager;

use vstd::prelude::*;
use crate::renderer::camera::{MatrixFactor, SCREEN_HEIGHT, SCREEN_WIDTH};
use crate::renderer::field::{Field, FieldBackgroundRendererResource};
use crate::renderer::fullscreen_quad::{
    is_screen_space_pass, lemma_screen_space_pass_samples, spec_quad_buffer,
};
use crate::renderer::layout::VertexStepMode;
use crate::renderer::model::{
    is_model_pass, lemma_model_pass_samples_nothing, ModelData, ModelRendererResource,
};
use crate::renderer::post_process::PostProcessResource;
use crate::renderer::resource::{
    BufferDescriptor, PassKind, RenderPass, RenderPipelineDescriptor, RenderTarget,
    TextureDescriptor, TextureFormat, TextureId, TextureSource, TextureUsages, VertexSource,
};
use crate::renderer::texture_manager::{
    decoded_rgba8, image_texture, load_texture, manifest_of, uploadable, TextureLookup,
    TextureLookupView, TextureManager, TextureManagerError, TextureUpload,
};

verus! {

/// When the images of a surface are shown.
#[derive(Clone, Copy, Debug, PartialEq, Eq, Structural)]
pub enum PresentMode {
    /// In the order of presenting, one per refresh of the display.
    Fifo,
    /// As soon as they are presented.
    Immediate,
    /// The latest presented image at each refresh of the display.
    Mailbox,
}

/// How the surface is blended with what lies behind the window.
#[derive(Clone, Copy, Debug, PartialEq, Eq, Structural)]
pub enum CompositeAlphaMode {
    /// Whatever the surface prefers.
    Auto,
    Opaque,
    PreMultiplied,
    PostMultiplied,
    Inherit,
}

/// The configuration of the presentable surface.
#[derive(Clone, Copy, Debug, PartialEq, Eq, Structural)]
pub struct SurfaceConfiguration {
    pub usage: TextureUsages,
    pub format: TextureFormat,
    pub width: u32,
    pub height: u32,
    pub present_mode: PresentMode,
    pub alpha_mode: CompositeAlphaMode,
}

impl SurfaceConfiguration {
    /// Both sides of the surface are at least one pixel long.
    pub open spec fn well_formed(self) -> bool {
        self.width > 0 && self.height > 0
    }

    /// The configuration for a drawable of the given size on a surface
    /// that supports `format` first.
    pub open spec fn initial(width: u32, height: u32, format: TextureFormat) -> Self {
        SurfaceConfiguration {
            usage: TextureUsages { copy_dst: false, texture_binding: false, render_attachment: true },
            format,
            width,
            height,
            present_mode: PresentMode::Fifo,
            alpha_mode: CompositeAlphaMode::Auto,
        }
    }

    /// The configuration after a request to resize to `width` by `height`:
    /// a request with a side of zero is ignored, any other sets the size.
    pub open spec fn resized(self, width: u32, height: u32) -> Self {
        if width > 0 && height > 0 {
            SurfaceConfiguration { width, height, ..self }
        } else {
            self
        }
    }

    /// The configuration after the requests `requests`, in order.
    pub open spec fn resized_all(self, requests: Seq<(u32, u32)>) -> Self
        decreases requests.len(),
    {
        if requests.len() == 0 {
            self
        } else {
            self.resized_all(requests.drop_last()).resized(requests.last().0, requests.last().1)
        }
    }

    /// Configures a surface for a drawable of `width` by `height` pixels:
    /// the images are render targets in the first of the formats that the
    /// surface supports, presented in order at the refresh of the display,
    /// with the alpha mode left to the surface. There is no configuration
    /// for a surface that supports no format or for a drawable with a side
    /// of zero.
    pub fn new(width: u32, height: u32, supported_formats: &[TextureFormat]) -> (config: Option<
        Self,
    >)
        ensures
            config == if supported_formats@.len() > 0 && width > 0 && height > 0 {
                Some(Self::initial(width, height, supported_formats@[0]))
            } else {
                None
            },
    {
        if supported_formats.len() == 0 || width == 0 || height == 0 {
            None
        } else {
            Some(
                SurfaceConfiguration {
                    usage: TextureUsages {
                        copy_dst: false,
                        texture_binding: false,
                        render_attachment: true,
                    },
                    format: supported_formats[0],
                    width,
                    height,
                    present_mode: PresentMode::Fifo,
                    alpha_mode: CompositeAlphaMode::Auto,
                },
            )
        }
    }
}

/// The last request of `requests` that has no side of zero, if there is one.
pub open spec fn last_valid_size(requests: Seq<(u32, u32)>) -> Option<(u32, u32)>
    decreases requests.len(),
{
    if requests.len() == 0 {
        None
    } else if requests.last().0 > 0 && requests.last().1 > 0 {
        Some(requests.last())
    } else {
        last_valid_size(requests.drop_last())
    }
}

/// After any sequence of resize requests the configuration holds the size of
/// the last request that had no side of zero, or its first size where there
/// was no such request. Nothing else of it changes, and it stays well formed.
pub proof fn lemma_resize_keeps_last_valid_size(
    config: SurfaceConfiguration,
    requests: Seq<(u32, u32)>,
)
    ensures
        config.resized_all(requests) == match last_valid_size(requests) {
            Some((width, height)) => SurfaceConfiguration { width, height, ..config },
            None => config,
        },
        config.well_formed() ==> config.resized_all(requests).well_formed(),
    decreases requests.len(),
{
    if requests.len() > 0 {
        lemma_resize_keeps_last_valid_size(config, requests.drop_last());
    }
}

/// Why the image of the surface could not be acquired.
#[derive(Clone, Copy, Debug, PartialEq, Eq, Structural)]
pub enum SurfaceError {
    /// The image did not become available in time.
    Timeout,
    /// The surface has changed and must be configured again.
    Outdated,
    /// The surface was lost and must be configured again.
    Lost,
    /// No memory is left for the image.
    OutOfMemory,
}

impl SurfaceError {
    /// The configuration of the surface is stale: the frame is skipped and
    /// the next one can succeed.
    pub open spec fn spec_is_recoverable(self) -> bool {
        self == SurfaceError::Outdated || self == SurfaceError::Lost
    }

    /// Whether the frame is merely skipped.
    pub fn is_recoverable(&self) -> (recoverable: bool)
        ensures
            recoverable == self.spec_is_recoverable(),
    {
        match self {
            SurfaceError::Outdated => true,
            SurfaceError::Lost => true,
            SurfaceError::Timeout => false,
            SurfaceError::OutOfMemory => false,
        }
    }
}

/// Why a frame was not presented.
#[derive(Debug)]
pub enum RenderError {
    /// The background texture could not be provided.
    Texture(TextureManagerError),
    /// The image of the surface could not be acquired.
    Surface(SurfaceError),
    /// The caller reported something that the frame was not waiting for.
    UnexpectedEvent,
}

impl RenderError {
    /// The frame was skipped for a stale surface; the next one can succeed.
    pub open spec fn spec_is_recoverable(self) -> bool {
        self matches RenderError::Surface(e) && e.spec_is_recoverable()
    }

    /// Whether the frame was merely skipped.
    pub fn is_recoverable(&self) -> (recoverable: bool)
        ensures
            recoverable == self.spec_is_recoverable(),
    {
        match self {
            RenderError::Surface(e) => e.is_recoverable(),
            _ => false,
        }
    }
}

/// How far the frame has come: what was asked for last and is awaited.
#[derive(Clone, Copy, Debug, PartialEq, Eq, Structural)]
pub enum FramePhase {
    /// No frame is under way.
    Idle,
    /// The surface is being configured.
    Configuring,
    /// The file of the background texture is being read.
    Reading,
    /// The background texture, described here, is being created and filled.
    Uploading(TextureDescriptor),
    /// The background pass has been handed over for submission.
    Background,
    /// The camera block is being written.
    CameraWrite,
    /// The model pass has been handed over for submission.
    Model,
    /// The image of the surface is being acquired.
    Acquiring,
    /// The post-process pass has been handed over for submission.
    PostProcess,
    /// The image of the surface is being presented.
    Presenting,
}

/// What the caller reports to the renderer.
#[derive(Debug)]
pub enum FrameEvent {
    /// The window asks for a new frame.
    RedrawRequested,
    /// What the renderer asked for last has been done.
    Done,
    /// The file that the renderer asked for has been read, or not.
    FileRead(Result<Vec<u8>, std::io::Error>),
    /// The image of the surface has been acquired, or not.
    SurfaceAcquired(Result<(), SurfaceError>),
}

/// What the renderer asks the caller to do next.
#[derive(Debug)]
pub enum FrameAction {
    /// Configure the surface, and report `Done`.
    ConfigureSurface(SurfaceConfiguration),
    /// Read the file at `path`, and report `FileRead`.
    ReadFile { path: String },
    /// Create the texture, copy the pixel data into it, keep it as the
    /// texture `id`, and report `Done`.
    UploadTexture { id: TextureId, upload: TextureUpload },
    /// Write the view-projection matrix, the product of the factors from
    /// left to right, into the camera block, and report `Done`.
    WriteCamera { view_proj: Vec<MatrixFactor> },
    /// Record the pass, submit it as one command buffer, and report `Done`.
    Submit(RenderPass),
    /// Acquire the image of the surface, and report `SurfaceAcquired`.
    AcquireSurface,
    /// Present the image of the surface, and report `Done`.
    Present,
    /// The frame is over. Nothing is to be done until the next
    /// `RedrawRequested`.
    Finish(Result<(), RenderError>),
}

impl FrameAction {
    /// What the action hands to the device queue, if anything: a pass, by
    /// its kind, or the presentation of the surface image.
    pub open spec fn submission(self) -> Option<Submission> {
        match self {
            FrameAction::Submit(pass) => Some(Submission::Pass(pass.kind)),
            FrameAction::Present => Some(Submission::Present),
            _ => None,
        }
    }
}

/// Something handed to the device queue.
#[derive(Clone, Copy, Debug, PartialEq, Eq, Structural)]
pub enum Submission {
    Pass(PassKind),
    Present,
}

/// The off-screen target that the background and model passes draw into and
/// the post-process pass samples.
pub open spec fn spec_intermediate_target() -> TextureDescriptor {
    TextureDescriptor {
        width: SCREEN_WIDTH,
        height: SCREEN_HEIGHT,
        format: TextureFormat::Rgba8UnormSrgb,
        usage: TextureUsages { copy_dst: false, texture_binding: true, render_attachment: true },
    }
}

/// The off-screen target that the background and model passes draw into and
/// the post-process pass samples.
pub fn intermediate_target() -> (target: TextureDescriptor)
    ensures
        target == spec_intermediate_target(),
{
    TextureDescriptor {
        width: SCREEN_WIDTH,
        height: SCREEN_HEIGHT,
        format: TextureFormat::Rgba8UnormSrgb,
        usage: TextureUsages { copy_dst: false, texture_binding: true, render_attachment: true },
    }
}

/// The renderer: the configuration of the surface, the intermediate target,
/// the texture cache, the field, the resources of the three passes, and how
/// far the current frame has come.
pub struct Renderer {
    surface_config: SurfaceConfiguration,
    configure_pending: bool,
    camera_dirty: bool,
    phase: FramePhase,
    post_process_texture: TextureDescriptor,
    textures: TextureManager,
    field: Field,
    field_background_renderer: FieldBackgroundRendererResource,
    model_renderer: ModelRendererResource,
    post_process_renderer: PostProcessResource,
}

impl Renderer {
    pub closed spec fn spec_surface_config(&self) -> SurfaceConfiguration {
        self.surface_config
    }

    /// The surface has to be configured before its next image is acquired.
    pub closed spec fn spec_configure_pending(&self) -> bool {
        self.configure_pending
    }

    /// The camera block does not hold the view-projection of the field yet.
    pub closed spec fn spec_camera_dirty(&self) -> bool {
        self.camera_dirty
    }

    pub closed spec fn spec_phase(&self) -> FramePhase {
        self.phase
    }

    pub closed spec fn spec_post_process_texture(&self) -> TextureDescriptor {
        self.post_process_texture
    }

    pub closed spec fn spec_textures(&self) -> TextureManager {
        self.textures
    }

    pub closed spec fn spec_field(&self) -> Field {
        self.field
    }

    pub closed spec fn spec_field_background_renderer(&self) -> FieldBackgroundRendererResource {
        self.field_background_renderer
    }

    pub closed spec fn spec_model_renderer(&self) -> ModelRendererResource {
        self.model_renderer
    }

    pub closed spec fn spec_post_process_renderer(&self) -> PostProcessResource {
        self.post_process_renderer
    }

    /// The name of the background texture.
    pub open spec fn background_name(&self) -> Seq<char> {
        self.spec_field().background_image_name@
    }

    /// The pipeline that passes of the given kind are drawn with.
    pub open spec fn pipeline(&self, kind: PassKind) -> RenderPipelineDescriptor {
        match kind {
            PassKind::Background => self.spec_field_background_renderer().spec_render_pipeline(),
            PassKind::Model => self.spec_model_renderer().spec_render_pipeline(),
            PassKind::PostProcess => self.spec_post_process_renderer().spec_render_pipeline(),
        }
    }

    /// The texture behind a render target.
    pub open spec fn target_texture(&self, target: RenderTarget) -> TextureDescriptor {
        match target {
            RenderTarget::Intermediate => self.spec_post_process_texture(),
            RenderTarget::Surface => TextureDescriptor {
                width: self.spec_surface_config().width,
                height: self.spec_surface_config().height,
                format: self.spec_surface_config().format,
                usage: self.spec_surface_config().usage,
            },
        }
    }

    /// The texture behind a source of samples, if it exists.
    pub open spec fn source_texture(&self, source: TextureSource) -> Option<TextureDescriptor> {
        match source {
            TextureSource::Intermediate => Some(self.spec_post_process_texture()),
            TextureSource::Cached(id) => if id.0 < self.spec_textures().loaded().len() {
                Some(self.spec_textures().loaded()[id.0 as int].1)
            } else {
                None
            },
        }
    }

    /// The buffer behind a vertex stream.
    pub open spec fn vertex_buffer(&self, source: VertexSource) -> BufferDescriptor {
        match source {
            VertexSource::Quad => spec_quad_buffer(),
            VertexSource::Model => self.spec_model_renderer().spec_model().spec_vertex_buffer(),
            VertexSource::Instances => self.spec_model_renderer().spec_instance_buffer(),
        }
    }

    /// The draw of the pass stays inside the buffer of stream `stream`: the
    /// buffer may feed a vertex stream and holds every element that the draw
    /// reads, one per vertex or one per instance as the stream advances.
    pub open spec fn draws_within(&self, pass: RenderPass, stream: int) -> bool {
        let layout = self.pipeline(pass.kind).vertex_buffers@[stream];
        let buffer = self.vertex_buffer(pass.vertex_buffers@[stream]);
        let elements = match layout.step_mode {
            VertexStepMode::Vertex => pass.vertex_count,
            VertexStepMode::Instance => pass.instance_count,
        };
        buffer.usage.vertex && elements * layout.array_stride <= buffer.size
    }

    /// The device accepts the pass: it fits the pipeline of its kind, the
    /// pipeline writes the format of the target, the target may be drawn
    /// into, every texture that the pass samples exists and may be sampled,
    /// and the draw stays inside the buffers of its vertex streams.
    #[verifier::opaque]
    pub open spec fn admits(&self, pass: RenderPass) -> bool {
        &&& pass.fits(&self.pipeline(pass.kind))
        &&& self.pipeline(pass.kind).well_formed()
        &&& self.pipeline(pass.kind).target_format == self.target_texture(pass.target).format
        &&& self.target_texture(pass.target).usage.render_attachment
        &&& forall|source: TextureSource| #[trigger]
            pass.samples(source) ==> {
                &&& self.source_texture(source) matches Some(texture)
                &&& texture.usage.texture_binding
            }
        &&& forall|stream: int|
            0 <= stream < pass.vertex_buffers@.len() ==> #[trigger] self.draws_within(pass, stream)
    }

    /// The parts of the renderer agree with each other: the surface has a
    /// size and can be drawn into, the intermediate target is the one of
    /// the pipeline, the resources of the in-scene passes are those for the
    /// format of the intermediate target and the resources of the
    /// post-process pass those for the format of the surface, the cache is
    /// well formed and holds only textures that can be sampled, and a frame
    /// that waits for the background texture waits for one that the
    /// manifest names and the cache does not hold.
    pub open spec fn well_formed(&self) -> bool {
        &&& self.spec_surface_config().well_formed()
        &&& self.spec_surface_config().usage.render_attachment
        &&& self.spec_post_process_texture() == spec_intermediate_target()
        &&& self.spec_field_background_renderer().describes(
            self.spec_post_process_texture().format,
        )
        &&& self.spec_model_renderer().describes(
            self.spec_post_process_texture().format,
            self.spec_model_renderer().spec_model(),
            self.spec_model_renderer().spec_instance_count(),
        )
        &&& self.spec_post_process_renderer().describes(self.spec_surface_config().format)
        &&& self.spec_textures().well_formed()
        &&& forall|i: int|
            0 <= i < self.spec_textures().loaded().len() ==> (
            #[trigger] self.spec_textures().loaded()[i]).1.usage.texture_binding
        &&& (self.spec_phase() is Reading || self.spec_phase() is Uploading) ==> self.awaits_load()
        &&& (self.spec_phase() matches FramePhase::Uploading(descriptor)
            ==> descriptor.usage.texture_binding)
    }

    /// The manifest names the background texture and the cache does not hold
    /// it.
    pub open spec fn awaits_load(&self) -> bool {
        self.spec_textures().lookup(self.background_name()) matches Some(
            TextureLookupView::Load { .. },
        )
    }

    /// The intermediate target and the resources of the passes are the same
    /// in `next`.
    pub open spec fn same_resources(&self, next: &Renderer) -> bool {
        &&& next.spec_post_process_texture() == self.spec_post_process_texture()
        &&& next.spec_field_background_renderer() == self.spec_field_background_renderer()
        &&& next.spec_model_renderer() == self.spec_model_renderer()
        &&& next.spec_post_process_renderer() == self.spec_post_process_renderer()
    }

    /// What does not change while frames are rendered is the same in `next`.
    pub open spec fn same_setup(&self, next: &Renderer) -> bool {
        &&& next.spec_surface_config() == self.spec_surface_config()
        &&& next.spec_field() == self.spec_field()
        &&& next.spec_textures().manifest() == self.spec_textures().manifest()
        &&& self.same_resources(next)
    }

    /// The cache is the same in `next`.
    pub open spec fn same_textures(&self, next: &Renderer) -> bool {
        &&& next.spec_textures().cache() == self.spec_textures().cache()
        &&& next.spec_textures().loaded() == self.spec_textures().loaded()
    }

    /// The frame ends here with `result`.
    pub open spec fn finishes(next: &Renderer, action: FrameAction, result: Result<(), RenderError>) -> bool {
        next.spec_phase() == FramePhase::Idle && action == FrameAction::Finish(result)
    }

    /// The background pass begins: with its submission where the texture is
    /// cached, with the reading of the file where the manifest names one,
    /// and with the end of the frame where it names none.
    pub open spec fn begins_background(&self, next: &Renderer, action: FrameAction) -> bool {
        &&& self.same_textures(next)
        &&& next.spec_camera_dirty() == self.spec_camera_dirty()
        &&& match self.spec_textures().lookup(self.background_name()) {
            Some(TextureLookupView::Cached(id)) => {
                &&& next.spec_phase() == FramePhase::Background
                &&& action matches FrameAction::Submit(pass)
                &&& is_screen_space_pass(
                    pass,
                    PassKind::Background,
                    RenderTarget::Intermediate,
                    TextureSource::Cached(id),
                )
                &&& next.admits(pass)
            },
            Some(TextureLookupView::Load { path }) => {
                &&& next.spec_phase() == FramePhase::Reading
                &&& action matches FrameAction::ReadFile { path: asked }
                &&& asked@ == path
            },
            None => Self::finishes(
                next,
                action,
                Err(RenderError::Texture(TextureManagerError::NameNotInManifest)),
            ),
        }
    }

    /// The model pass is submitted.
    pub open spec fn submits_model(&self, next: &Renderer, action: FrameAction) -> bool {
        &&& next.spec_phase() == FramePhase::Model
        &&& action matches FrameAction::Submit(pass)
        &&& is_model_pass(
            pass,
            self.spec_model_renderer().spec_model().spec_vertex_count(),
            self.spec_model_renderer().spec_instance_count(),
        )
        &&& next.admits(pass)
    }

    /// What the file of the background texture, read or not, leads to: the
    /// upload of the decoded image as the next texture of the cache, or the
    /// end of the frame with the error of reading, decoding or planning.
    pub open spec fn reads_background(
        &self,
        read: Result<Vec<u8>, std::io::Error>,
        next: &Renderer,
        action: FrameAction,
    ) -> bool {
        let path = self.spec_textures().manifest()[self.background_name()];
        match read {
            Err(e) => Self::finishes(
                next,
                action,
                Err(RenderError::Texture(TextureManagerError::FileReadError(e))),
            ),
            Ok(bytes) => match decoded_rgba8(path, bytes@) {
                None => {
                    &&& next.spec_phase() == FramePhase::Idle
                    &&& action matches FrameAction::Finish(
                        Err(RenderError::Texture(TextureManagerError::ImageDecodeError(_))),
                    )
                },
                Some((width, height, pixels)) => if uploadable(width, height, pixels.len()) {
                    &&& next.spec_phase() == FramePhase::Uploading(image_texture(width, height))
                    &&& action matches FrameAction::UploadTexture { id, upload }
                    &&& id == TextureId(self.spec_textures().loaded().len() as usize)
                    &&& upload.is_upload_of(width, height, pixels)
                    &&& upload.well_formed()
                } else {
                    Self::finishes(
                        next,
                        action,
                        Err(
                            RenderError::Texture(
                                TextureManagerError::InvalidDimensions { width, height },
                            ),
                        ),
                    )
                },
            },
        }
    }

    /// A renderer for a surface with the given configuration, with a cache
    /// over the manifest that `texture_paths` lists, the given field, and a
    /// model drawn `instance_count` times. No frame is under way; the first
    /// one configures the surface and writes the camera block. There is no
    /// renderer for a surface without a size or one that cannot be drawn
    /// into.
    pub fn new(
        surface_config: SurfaceConfiguration,
        texture_paths: Vec<(String, String)>,
        field: Field,
        model: ModelData,
        instance_count: u32,
    ) -> (renderer: Option<Self>)
        ensures
            renderer is Some <==> surface_config.well_formed()
                && surface_config.usage.render_attachment,
            renderer matches Some(r) ==> {
                &&& r.well_formed()
                &&& r.spec_surface_config() == surface_config
                &&& r.spec_configure_pending()
                &&& r.spec_camera_dirty()
                &&& r.spec_phase() == FramePhase::Idle
                &&& r.spec_field() == field
                &&& r.spec_textures().manifest() == manifest_of(texture_paths@)
                &&& r.spec_textures().loaded().len() == 0
                &&& r.spec_textures().cache() == Map::<Seq<char>, TextureId>::empty()
                &&& r.spec_post_process_texture() == spec_intermediate_target()
                &&& r.spec_field_background_renderer().describes(
                    TextureFormat::Rgba8UnormSrgb,
                )
                &&& r.spec_model_renderer().describes(
                    TextureFormat::Rgba8UnormSrgb,
                    model,
                    instance_count,
                )
                &&& r.spec_post_process_renderer().describes(surface_config.format)
            },
    {
        if surface_config.width == 0 || surface_config.height == 0
            || !surface_config.usage.render_attachment {
            return None;
        }
        let post_process_texture = intermediate_target();
        Some(
            Renderer {
                surface_config,
                configure_pending: true,
                camera_dirty: true,
                phase: FramePhase::Idle,
                post_process_texture,
                textures: TextureManager::new(texture_paths),
                field,
                field_background_renderer: FieldBackgroundRendererResource::new(
                    post_process_texture.format,
                ),
                model_renderer: ModelRendererResource::new(
                    post_process_texture.format,
                    model,
                    instance_count,
                ),
                post_process_renderer: PostProcessResource::new(surface_config.format),
            },
        )
    }

    /// Takes a request to resize the surface to `width` by `height` pixels.
    /// A request with a side of zero is ignored. Any other sets the size of
    /// the configuration, and the surface is configured anew before its next
    /// image is acquired.
    pub fn resize(&mut self, width: u32, height: u32)
        requires
            old(self).well_formed(),
        ensures
            final(self).well_formed(),
            final(self).spec_surface_config() == old(self).spec_surface_config().resized(
                width,
                height,
            ),
            final(self).spec_configure_pending() == (old(self).spec_configure_pending() || (width
                > 0 && height > 0)),
            !(width > 0 && height > 0) ==> *final(self) == *old(self),
            final(self).spec_phase() == old(self).spec_phase(),
            final(self).spec_camera_dirty() == old(self).spec_camera_dirty(),
            final(self).spec_textures() == old(self).spec_textures(),
            final(self).spec_field() == old(self).spec_field(),
            old(self).same_resources(final(self)),
    {
        if width > 0 && height > 0 {
            self.surface_config.width = width;
            self.surface_config.height = height;
            self.configure_pending = true;
        }
    }

    /// Replaces the field, and with it the background and the camera. The
    /// camera block is written anew in the next frame. While a frame is
    /// under way the field is not replaced; the result says whether it was.
    pub fn set_field(&mut self, field: Field) -> (replaced: bool)
        requires
            old(self).well_formed(),
        ensures
            final(self).well_formed(),
            replaced == (old(self).spec_phase() == FramePhase::Idle),
            replaced ==> final(self).spec_field() == field && final(self).spec_camera_dirty(),
            !replaced ==> *final(self) == *old(self),
            final(self).spec_surface_config() == old(self).spec_surface_config(),
            final(self).spec_configure_pending() == old(self).spec_configure_pending(),
            final(self).spec_phase() == old(self).spec_phase(),
            final(self).spec_textures() == old(self).spec_textures(),
            old(self).same_resources(final(self)),
    {
        match self.phase {
            FramePhase::Idle => {
                self.field = field;
                self.camera_dirty = true;
                true
            },
            _ => false,
        }
    }

    fn begin_background(&mut self) -> (action: FrameAction)
        requires
            old(self).well_formed(),
        ensures
            final(self).well_formed(),
            old(self).same_setup(final(self)),
            final(self).spec_configure_pending() == old(self).spec_configure_pending(),
            old(self).begins_background(final(self), action),
    {
        match self.textures.get_texture(self.field.background_image_name.as_str()) {
            Ok(TextureLookup::Cached(id)) => {
                self.phase = FramePhase::Background;
                self.submit_background(id)
            },
            Ok(TextureLookup::Load { path }) => {
                self.phase = FramePhase::Reading;
                FrameAction::ReadFile { path }
            },
            Err(_) => {
                self.phase = FramePhase::Idle;
                FrameAction::Finish(
                    Err(RenderError::Texture(TextureManagerError::NameNotInManifest)),
                )
            },
        }
    }

    fn submit_background(&self, id: TextureId) -> (action: FrameAction)
        requires
            self.well_formed(),
            id.0 < self.spec_textures().loaded().len(),
        ensures
            action matches FrameAction::Submit(pass) && is_screen_space_pass(
                pass,
                PassKind::Background,
                RenderTarget::Intermediate,
                TextureSource::Cached(id),
            ) && self.admits(pass),
    {
        let pass = self.field_background_renderer.render(id);
        proof {
            reveal(Renderer::admits);
            assert(self.draws_within(pass, 0));
            lemma_screen_space_pass_samples(
                pass,
                PassKind::Background,
                RenderTarget::Intermediate,
                TextureSource::Cached(id),
            );
        }
        FrameAction::Submit(pass)
    }

    fn read_background(&mut self, read: Result<Vec<u8>, std::io::Error>) -> (action: FrameAction)
        requires
            old(self).well_formed(),
            old(self).spec_phase() == FramePhase::Reading,
        ensures
            final(self).well_formed(),
            old(self).same_setup(final(self)),
            old(self).same_textures(final(self)),
            final(self).spec_configure_pending() == old(self).spec_configure_pending(),
            final(self).spec_camera_dirty() == old(self).spec_camera_dirty(),
            old(self).reads_background(read, final(self), action),
    {
        let path = match self.textures.get_texture(self.field.background_image_name.as_str()) {
            Ok(TextureLookup::Load { path }) => path,
            _ => {
                self.phase = FramePhase::Idle;
                return FrameAction::Finish(Err(RenderError::UnexpectedEvent));
            },
        };
        match load_texture(path.as_str(), read) {
            Ok(upload) => {
                self.phase = FramePhase::Uploading(upload.descriptor);
                FrameAction::UploadTexture { id: TextureId(self.textures.len()), upload }
            },
            Err(e) => {
                self.phase = FramePhase::Idle;
                FrameAction::Finish(Err(RenderError::Texture(e)))
            },
        }
    }

    fn finish_upload(&mut self, descriptor: TextureDescriptor) -> (action: FrameAction)
        requires
            old(self).well_formed(),
            old(self).spec_phase() == FramePhase::Uploading(descriptor),
        ensures
            final(self).well_formed(),
            old(self).same_setup(final(self)),
            old(self).step(FrameEvent::Done, final(self), action),
    {
        match self.textures.insert(self.field.background_image_name.as_str(), descriptor) {
            Ok(id) => {
                self.phase = FramePhase::Background;
                self.submit_background(id)
            },
            Err(e) => {
                self.phase = FramePhase::Idle;
                FrameAction::Finish(Err(RenderError::Texture(e)))
            },
        }
    }

    fn submit_model(&mut self) -> (action: FrameAction)
        requires
            old(self).well_formed(),
        ensures
            final(self).well_formed(),
            old(self).same_setup(final(self)),
            old(self).same_textures(final(self)),
            final(self).spec_configure_pending() == old(self).spec_configure_pending(),
            final(self).spec_camera_dirty() == old(self).spec_camera_dirty(),
            old(self).submits_model(final(self), action),
    {
        self.phase = FramePhase::Model;
        let pass = self.model_renderer.render();
        proof {
            reveal(Renderer::admits);
            assert(self.draws_within(pass, 0));
            assert(self.draws_within(pass, 1));
            lemma_model_pass_samples_nothing(pass, pass.vertex_count, pass.instance_count);
        }
        FrameAction::Submit(pass)
    }

    pub fn surface_config(&self) -> (config: SurfaceConfiguration)
        ensures
            config == self.spec_surface_config(),
    {
        self.surface_config
    }

    /// Whether the surface is configured before its next image is acquired.
    pub fn configure_pending(&self) -> (pending: bool)
        ensures
            pending == self.spec_configure_pending(),
    {
        self.configure_pending
    }

    /// Whether the camera block is written in the next frame.
    pub fn camera_dirty(&self) -> (dirty: bool)
        ensures
            dirty == self.spec_camera_dirty(),
    {
        self.camera_dirty
    }

    pub fn phase(&self) -> (phase: FramePhase)
        ensures
            phase == self.spec_phase(),
    {
        self.phase
    }

    /// The intermediate target.
    pub fn post_process_texture(&self) -> (texture: TextureDescriptor)
        ensures
            texture == self.spec_post_process_texture(),
    {
        self.post_process_texture
    }

    pub fn textures(&self) -> (textures: &TextureManager)
        ensures
            *textures == self.spec_textures(),
    {
        &self.textures
    }

    pub fn field(&self) -> (field: &Field)
        ensures
            *field == self.spec_field(),
    {
        &self.field
    }

    pub fn field_background_renderer(&self) -> (resource: &FieldBackgroundRendererResource)
        ensures
            *resource == self.spec_field_background_renderer(),
    {
        &self.field_background_renderer
    }

    pub fn model_renderer(&self) -> (resource: &ModelRendererResource)
        ensures
            *resource == self.spec_model_renderer(),
    {
        &self.model_renderer
    }

    pub fn post_process_renderer(&self) -> (resource: &PostProcessResource)
        ensures
            *resource == self.spec_post_process_renderer(),
    {
        &self.post_process_renderer
    }

    /// Takes what the caller reports and says what is to be done next. A
    /// frame begins with `RedrawRequested` while no frame is under way, and
    /// ends with the action `Finish`. In between the renderer asks, in this
    /// order, for the surface to be configured where that is pending, for
    /// the background texture to be read and uploaded where the cache does
    /// not hold it, for the background pass, for the camera block to be
    /// written where the camera has changed, for the model pass, for the
    /// image of the surface, for the post-process pass, and for the image
    /// to be presented. A texture that cannot be provided or an image that
    /// cannot be acquired ends the frame with its error; a stale surface is
    /// configured anew in the next frame. A report that the frame is not
    /// waiting for ends it with `UnexpectedEvent`.
    pub fn render(&mut self, event: FrameEvent) -> (action: FrameAction)
        requires
            old(self).well_formed(),
        ensures
            final(self).well_formed(),
            old(self).step(event, final(self), action),
    {
        match (self.phase, event) {
            (FramePhase::Idle, FrameEvent::RedrawRequested) => {
                if self.configure_pending {
                    self.configure_pending = false;
                    self.phase = FramePhase::Configuring;
                    FrameAction::ConfigureSurface(self.surface_config)
                } else {
                    self.begin_background()
                }
            },
            (FramePhase::Configuring, FrameEvent::Done) => self.begin_background(),
            (FramePhase::Reading, FrameEvent::FileRead(read)) => self.read_background(read),
            (FramePhase::Uploading(descriptor), FrameEvent::Done) => self.finish_upload(
                descriptor,
            ),
            (FramePhase::Background, FrameEvent::Done) => {
                if self.camera_dirty {
                    self.camera_dirty = false;
                    self.phase = FramePhase::CameraWrite;
                    FrameAction::WriteCamera { view_proj: self.field.view_proj.clone() }
                } else {
                    self.submit_model()
                }
            },
            (FramePhase::CameraWrite, FrameEvent::Done) => self.submit_model(),
            (FramePhase::Model, FrameEvent::Done) => {
                self.phase = FramePhase::Acquiring;
                FrameAction::AcquireSurface
            },
            (FramePhase::Acquiring, FrameEvent::SurfaceAcquired(Ok(()))) => {
                self.phase = FramePhase::PostProcess;
                let pass = self.post_process_renderer.render();
                proof {
                    reveal(Renderer::admits);
                    assert(self.draws_within(pass, 0));
                    lemma_screen_space_pass_samples(
                        pass,
                        PassKind::PostProcess,
                        RenderTarget::Surface,
                        TextureSource::Intermediate,
                    );
                }
                FrameAction::Submit(pass)
            },
            (FramePhase::Acquiring, FrameEvent::SurfaceAcquired(Err(e))) => {
                if e.is_recoverable() {
                    self.configure_pending = true;
                }
                self.phase = FramePhase::Idle;
                FrameAction::Finish(Err(RenderError::Surface(e)))
            },
            (FramePhase::PostProcess, FrameEvent::Done) => {
                self.phase = FramePhase::Presenting;
                FrameAction::Present
            },
            (FramePhase::Presenting, FrameEvent::Done) => {
                self.phase = FramePhase::Idle;
                FrameAction::Finish(Ok(()))
            },
            _ => {
                self.phase = FramePhase::Idle;
                FrameAction::Finish(Err(RenderError::UnexpectedEvent))
            },
        }
    }

    /// One step of a frame: in state `self` the caller reports `event`, the
    /// renderer goes over to `next` and asks for `action`.
    pub open spec fn step(&self, event: FrameEvent, next: &Renderer, action: FrameAction) -> bool {
        &&& self.same_setup(next)
        &&& match (self.spec_phase(), event) {
            (FramePhase::Idle, FrameEvent::RedrawRequested) => if self.spec_configure_pending() {
                &&& next.spec_phase() == FramePhase::Configuring
                &&& !next.spec_configure_pending()
                &&& next.spec_camera_dirty() == self.spec_camera_dirty()
                &&& self.same_textures(next)
                &&& action == FrameAction::ConfigureSurface(self.spec_surface_config())
            } else {
                &&& !next.spec_configure_pending()
                &&& self.begins_background(next, action)
            },
            (FramePhase::Configuring, FrameEvent::Done) => {
                &&& next.spec_configure_pending() == self.spec_configure_pending()
                &&& self.begins_background(next, action)
            },
            (FramePhase::Reading, FrameEvent::FileRead(read)) => {
                &&& next.spec_configure_pending() == self.spec_configure_pending()
                &&& next.spec_camera_dirty() == self.spec_camera_dirty()
                &&& self.same_textures(next)
                &&& self.reads_background(read, next, action)
            },
            (FramePhase::Uploading(descriptor), FrameEvent::Done) => {
                let id = TextureId(self.spec_textures().loaded().len() as usize);
                &&& next.spec_configure_pending() == self.spec_configure_pending()
                &&& next.spec_camera_dirty() == self.spec_camera_dirty()
                &&& next.spec_textures().cache() == self.spec_textures().cache().insert(
                    self.background_name(),
                    id,
                )
                &&& next.spec_textures().loaded() == self.spec_textures().loaded().push(
                    (self.background_name(), descriptor),
                )
                &&& next.spec_phase() == FramePhase::Background
                &&& action matches FrameAction::Submit(pass)
                &&& is_screen_space_pass(
                    pass,
                    PassKind::Background,
                    RenderTarget::Intermediate,
                    TextureSource::Cached(id),
                )
                &&& next.admits(pass)
            },
            (FramePhase::Background, FrameEvent::Done) => {
                &&& next.spec_configure_pending() == self.spec_configure_pending()
                &&& self.same_textures(next)
                &&& !next.spec_camera_dirty()
                &&& if self.spec_camera_dirty() {
                    &&& next.spec_phase() == FramePhase::CameraWrite
                    &&& action matches FrameAction::WriteCamera { view_proj }
                    &&& view_proj@ == self.spec_field().view_proj@
                } else {
                    self.submits_model(next, action)
                }
            },
            (FramePhase::CameraWrite, FrameEvent::Done) => {
                &&& next.spec_configure_pending() == self.spec_configure_pending()
                &&& next.spec_camera_dirty() == self.spec_camera_dirty()
                &&& self.same_textures(next)
                &&& self.submits_model(next, action)
            },
            (FramePhase::Model, FrameEvent::Done) => {
                &&& next.spec_configure_pending() == self.spec_configure_pending()
                &&& next.spec_camera_dirty() == self.spec_camera_dirty()
                &&& self.same_textures(next)
                &&& next.spec_phase() == FramePhase::Acquiring
                &&& action == FrameAction::AcquireSurface
            },
            (FramePhase::Acquiring, FrameEvent::SurfaceAcquired(Ok(()))) => {
                &&& next.spec_configure_pending() == self.spec_configure_pending()
                &&& next.spec_camera_dirty() == self.spec_camera_dirty()
                &&& self.same_textures(next)
                &&& next.spec_phase() == FramePhase::PostProcess
                &&& action matches FrameAction::Submit(pass)
                &&& is_screen_space_pass(
                    pass,
                    PassKind::PostProcess,
                    RenderTarget::Surface,
                    TextureSource::Intermediate,
                )
                &&& next.admits(pass)
            },
            (FramePhase::Acquiring, FrameEvent::SurfaceAcquired(Err(e))) => {
                &&& next.spec_configure_pending() == (self.spec_configure_pending()
                    || e.spec_is_recoverable())
                &&& next.spec_camera_dirty() == self.spec_camera_dirty()
                &&& self.same_textures(next)
                &&& Self::finishes(next, action, Err(RenderError::Surface(e)))
            },
            (FramePhase::PostProcess, FrameEvent::Done) => {
                &&& next.spec_configure_pending() == self.spec_configure_pending()
                &&& next.spec_camera_dirty() == self.spec_camera_dirty()
                &&& self.same_textures(next)
                &&& next.spec_phase() == FramePhase::Presenting
                &&& action == FrameAction::Present
            },
            (FramePhase::Presenting, FrameEvent::Done) => {
                &&& next.spec_configure_pending() == self.spec_configure_pending()
                &&& next.spec_camera_dirty() == self.spec_camera_dirty()
                &&& self.same_textures(next)
                &&& Self::finishes(next, action, Ok(()))
            },
            _ => {
                &&& next.spec_configure_pending() == self.spec_configure_pending()
                &&& next.spec_camera_dirty() == self.spec_camera_dirty()
                &&& self.same_textures(next)
                &&& Self::finishes(next, action, Err(RenderError::UnexpectedEvent))
            },
        }
    }
}

/// A run of the renderer: each state goes over to the next by one step.
pub open spec fn is_run(
    states: Seq<Renderer>,
    events: Seq<FrameEvent>,
    actions: Seq<FrameAction>,
) -> bool {
    &&& states.len() == events.len() + 1
    &&& actions.len() == events.len()
    &&& forall|i: int|
        0 <= i < events.len() ==> (#[trigger] states[i]).step(
            events[i],
            &states[i + 1],
            actions[i],
        )
}

/// A frame: a run that begins while no frame is under way and whose last
/// action, and no earlier one, is `Finish`.
pub open spec fn is_frame(
    states: Seq<Renderer>,
    events: Seq<FrameEvent>,
    actions: Seq<FrameAction>,
) -> bool {
    &&& is_run(states, events, actions)
    &&& events.len() > 0
    &&& states[0].spec_phase() == FramePhase::Idle
    &&& forall|i: int| 0 <= i < actions.len() - 1 ==> !(#[trigger] actions[i] is Finish)
    &&& actions.last() is Finish
}

/// What the actions hand to the device queue, in order.
pub open spec fn submissions(actions: Seq<FrameAction>) -> Seq<Submission>
    decreases actions.len(),
{
    if actions.len() == 0 {
        Seq::empty()
    } else {
        let before = submissions(actions.drop_last());
        match actions.last().submission() {
            Some(submission) => before.push(submission),
            None => before,
        }
    }
}

/// What a frame that succeeds hands to the device queue.
pub open spec fn frame_submissions() -> Seq<Submission> {
    seq![
        Submission::Pass(PassKind::Background),
        Submission::Pass(PassKind::Model),
        Submission::Pass(PassKind::PostProcess),
        Submission::Present,
    ]
}

/// How many submissions of a frame lie behind a phase.
spec fn submitted_before(phase: FramePhase) -> int {
    match phase {
        FramePhase::Idle => 0,
        FramePhase::Configuring => 0,
        FramePhase::Reading => 0,
        FramePhase::Uploading(_) => 0,
        FramePhase::Background => 1,
        FramePhase::CameraWrite => 1,
        FramePhase::Model => 2,
        FramePhase::Acquiring => 2,
        FramePhase::PostProcess => 3,
        FramePhase::Presenting => 4,
    }
}

proof fn lemma_frame_progress(
    states: Seq<Renderer>,
    events: Seq<FrameEvent>,
    actions: Seq<FrameAction>,
    k: int,
)
    requires
        is_run(states, events, actions),
        states[0].spec_phase() == FramePhase::Idle,
        0 <= k <= events.len(),
        forall|i: int| 0 <= i < k ==> !(#[trigger] actions[i] is Finish),
    ensures
        submissions(actions.take(k)) == frame_submissions().take(
            submitted_before(states[k].spec_phase()),
        ),
        k > 0 ==> states[k].spec_phase() != FramePhase::Idle,
        k > 0 ==> !states[k].spec_configure_pending(),
        states[k].spec_surface_config() == states[0].spec_surface_config(),
        states[k].spec_field() == states[0].spec_field(),
        states[k].spec_camera_dirty() ==> states[0].spec_camera_dirty() && submitted_before(
            states[k].spec_phase(),
        ) <= 1 && !(states[k].spec_phase() is CameraWrite),
        states[k].spec_phase() is CameraWrite ==> states[0].spec_camera_dirty(),
        (states[0].spec_textures().lookup(states[0].background_name())
            matches Some(TextureLookupView::Cached(_))) ==> {
            &&& states[k].spec_textures().cache() == states[0].spec_textures().cache()
            &&& !(states[k].spec_phase() is Reading)
            &&& !(states[k].spec_phase() is Uploading)
        },
    decreases k,
{
    if k == 0 {
        assert(actions.take(0) =~= Seq::<FrameAction>::empty());
        assert(frame_submissions().take(0) =~= Seq::<Submission>::empty());
    } else {
        lemma_frame_progress(states, events, actions, k - 1);
        let before = states[k - 1];
        assert(before.step(events[k - 1], &states[k], actions[k - 1]));
        assert(!(actions[k - 1] is Finish));
        assert(actions.take(k).drop_last() =~= actions.take(k - 1));
        assert(actions.take(k).last() == actions[k - 1]);
        let n = submitted_before(before.spec_phase());
        match actions[k - 1].submission() {
            Some(submission) => {
                assert(frame_submissions().take(n + 1) =~= frame_submissions().take(n).push(
                    submission,
                ));
            },
            None => {},
        }
    }
}

/// The order of a frame. In every frame that succeeds, exactly four things
/// are handed to the device queue, in this order: the background pass, the
/// model pass, the post-process pass, and the presentation of the surface
/// image. The presentation is the last action before the frame finishes.
/// Where a configuration of the surface is pending when the frame begins,
/// the first action of the frame is to configure the surface as the renderer
/// holds it.
pub proof fn lemma_frame_order(
    states: Seq<Renderer>,
    events: Seq<FrameEvent>,
    actions: Seq<FrameAction>,
)
    requires
        is_frame(states, events, actions),
        actions.last() == FrameAction::Finish(Ok(())),
    ensures
        submissions(actions) == frame_submissions(),
        actions.len() >= 2 && actions[actions.len() - 2] == FrameAction::Present,
        states[0].spec_configure_pending() ==> actions[0] == FrameAction::ConfigureSurface(
            states[0].spec_surface_config(),
        ),
{
    let n = events.len() as int;
    lemma_frame_progress(states, events, actions, n - 1);
    assert(states[n - 1].step(events[n - 1], &states[n], actions[n - 1]));
    assert(states[n - 1].spec_phase() == FramePhase::Presenting);
    assert(n >= 2);
    assert(actions.drop_last() =~= actions.take(n - 1));
    assert(frame_submissions().take(4) =~= frame_submissions());
    lemma_frame_progress(states, events, actions, n - 2);
    assert(states[n - 2].step(events[n - 2], &states[n - 1], actions[n - 2]));
    assert(states[0].step(events[0], &states[1], actions[0]));
}

/// The place of a phase in the course of a frame.
pub open spec fn phase_order(phase: FramePhase) -> int {
    match phase {
        FramePhase::Idle => 0,
        FramePhase::Configuring => 1,
        FramePhase::Reading => 2,
        FramePhase::Uploading(_) => 3,
        FramePhase::Background => 4,
        FramePhase::CameraWrite => 5,
        FramePhase::Model => 6,
        FramePhase::Acquiring => 7,
        FramePhase::PostProcess => 8,
        FramePhase::Presenting => 9,
    }
}

proof fn lemma_phases_advance(
    states: Seq<Renderer>,
    events: Seq<FrameEvent>,
    actions: Seq<FrameAction>,
    i: int,
    j: int,
)
    requires
        is_run(states, events, actions),
        0 <= i < j <= events.len(),
        forall|k: int| 0 <= k < j ==> !(#[trigger] actions[k] is Finish),
    ensures
        phase_order(states[i].spec_phase()) < phase_order(states[j].spec_phase()),
    decreases j - i,
{
    assert(states[j - 1].step(events[j - 1], &states[j], actions[j - 1]));
    if i < j - 1 {
        lemma_phases_advance(states, events, actions, i, j - 1);
    }
}

/// A frame advances. Until it finishes, every step of a frame takes it to a
/// later phase, and the frame finishes within ten steps.
pub proof fn lemma_frame_advances(
    states: Seq<Renderer>,
    events: Seq<FrameEvent>,
    actions: Seq<FrameAction>,
)
    requires
        is_frame(states, events, actions),
    ensures
        forall|i: int, j: int|
            0 <= i < j < actions.len() ==> phase_order(#[trigger] states[i].spec_phase())
                < phase_order(#[trigger] states[j].spec_phase()),
        actions.len() <= 10,
{
    let n = actions.len() as int;
    assert forall|i: int, j: int| 0 <= i < j < n implies phase_order(
        #[trigger] states[i].spec_phase(),
    ) < phase_order(#[trigger] states[j].spec_phase()) by {
        lemma_phases_advance(states, events, actions, i, j);
    }
    if n > 1 {
        lemma_phases_advance(states, events, actions, 0, n - 1);
    }
}

/// The surface is configured before its image is acquired. In every frame,
/// the renderer asks for the image of the surface only while no
/// configuration is pending, and with the configuration that it held when
/// the frame began; where one was pending then, the frame began by
/// configuring the surface with it.
pub proof fn lemma_surface_is_configured_before_it_is_acquired(
    states: Seq<Renderer>,
    events: Seq<FrameEvent>,
    actions: Seq<FrameAction>,
    i: int,
)
    requires
        is_frame(states, events, actions),
        0 <= i < actions.len(),
        actions[i] is AcquireSurface,
    ensures
        i > 0,
        !states[i].spec_configure_pending(),
        states[i + 1].spec_surface_config() == states[0].spec_surface_config(),
        states[0].spec_configure_pending() ==> actions[0] == FrameAction::ConfigureSurface(
            states[0].spec_surface_config(),
        ),
{
    lemma_frame_progress(states, events, actions, i);
    assert(states[i].step(events[i], &states[i + 1], actions[i]));
    assert(states[0].step(events[0], &states[1], actions[0]));
}

/// The camera block is written only when the camera has changed. In every
/// frame, the renderer asks for the camera block to be written only where
/// the camera had changed when the frame began, and then with the
/// view-projection of the field; and after a frame that succeeds the camera
/// counts as unchanged.
pub proof fn lemma_camera_is_written_only_when_changed(
    states: Seq<Renderer>,
    events: Seq<FrameEvent>,
    actions: Seq<FrameAction>,
    i: int,
)
    requires
        is_frame(states, events, actions),
        0 <= i < actions.len(),
    ensures
        actions[i] matches FrameAction::WriteCamera { view_proj } ==> states[0].spec_camera_dirty()
            && view_proj@ == states[0].spec_field().view_proj@,
        actions.last() == FrameAction::Finish(Ok(())) ==> !states.last().spec_camera_dirty(),
{
    lemma_frame_progress(states, events, actions, i);
    assert(states[i].step(events[i], &states[i + 1], actions[i]));
    let n = events.len() as int;
    lemma_frame_progress(states, events, actions, n - 1);
    assert(states[n - 1].step(events[n - 1], &states[n], actions[n - 1]));
}

/// A cached background is not loaded again. In a frame that begins while
/// the cache holds the background texture, no action asks for a file to be
/// read or a texture to be uploaded, and the background pass samples the
/// texture that the cache held when the frame began.
pub proof fn lemma_cached_background_is_not_reloaded(
    states: Seq<Renderer>,
    events: Seq<FrameEvent>,
    actions: Seq<FrameAction>,
    id: TextureId,
    i: int,
)
    requires
        is_frame(states, events, actions),
        states[0].spec_textures().lookup(states[0].background_name()) == Some(
            TextureLookupView::Cached(id),
        ),
        0 <= i < actions.len(),
    ensures
        !(actions[i] is ReadFile),
        !(actions[i] is UploadTexture),
        actions[i] matches FrameAction::Submit(pass) ==> (pass.kind == PassKind::Background
            ==> pass.samples(TextureSource::Cached(id))),
{
    lemma_frame_progress(states, events, actions, i);
    assert(states[i].step(events[i], &states[i + 1], actions[i]));
    match actions[i] {
        FrameAction::Submit(pass) => {
            if pass.kind == PassKind::Background {
                lemma_screen_space_pass_samples(
                    pass,
                    PassKind::Background,
                    RenderTarget::Intermediate,
                    TextureSource::Cached(id),
                );
            }
        },
        _ => {},
    }
}

/// A name that the manifest does not have ends the frame at once. In a
/// frame that begins with the surface configured and a background name
/// that the manifest does not have, the first and only action is to finish
/// with `NameNotInManifest`: nothing is read.
pub proof fn lemma_missing_background_ends_frame(
    before: Renderer,
    after: Renderer,
    action: FrameAction,
)
    requires
        before.well_formed(),
        before.spec_phase() == FramePhase::Idle,
        !before.spec_configure_pending(),
        !before.spec_textures().manifest().contains_key(before.background_name()),
        before.step(FrameEvent::RedrawRequested, &after, action),
    ensures
        action == FrameAction::Finish(
            Err(RenderError::Texture(TextureManagerError::NameNotInManifest)),
        ),
        after.spec_phase() == FramePhase::Idle,
        before.same_textures(&after),
{
}

} // verus!

//! Main renderer: owns the context, the resource and shader registries and
//! the per-frame recording lifecycle (begin pass, record, submit,
//! read-back).

use vstd::prelude::*;

use crate::buffer::queue_plus_write_of_len;
use crate::config::{GpuConfig, Size, WindowConfig};
use crate::context::{
    queue_plus_submission, Color, Command, CommandEncoder, CompositeAlphaMode, GpuContext,
    PresentMode, SurfaceConfiguration, SurfaceTexture,
};
use crate::error::GeepuError;
use crate::registry::NamedStore;
use crate::resources::{ResourceManager, StorageBuffer, TextureResource, UniformBuffer};
use crate::shaders::{ComputePipeline, ShaderManager};
use crate::texture::TextureFormat;

verus! {

/// Choose the present mode the way the windowed constructors do: the first
/// mode the surface supports when vsync is wanted, else immediate
/// presentation. Fails only when the driver reported no present modes.
pub fn select_present_mode(vsync: bool, supported: &Vec<PresentMode>) -> (r: Result<
    PresentMode,
    GeepuError,
>)
    ensures
        r is Err <==> vsync && supported@.len() == 0,
        r matches Err(e) ==> e matches GeepuError::SurfaceCreationFailed(_),
        vsync && supported@.len() > 0 ==> r == Ok::<PresentMode, GeepuError>(supported@[0]),
        !vsync ==> r == Ok::<PresentMode, GeepuError>(PresentMode::Immediate),
{
    if vsync {
        if supported.len() == 0 {
            return Err(
                GeepuError::SurfaceCreationFailed("surface reported no present modes".to_owned()),
            );
        }
        Ok(supported[0])
    } else {
        Ok(PresentMode::Immediate)
    }
}

/// What a render pass guard targets.
#[derive(Debug, Clone, Copy, PartialEq, Eq, Structural)]
pub enum PassTarget {
    /// The renderer's offscreen render target.
    Offscreen { width: u32, height: u32, format: TextureFormat },
    /// The renderer's presentation surface.
    Surface { width: u32, height: u32, format: TextureFormat },
    /// The renderer has neither.
    NoTarget,
}

/// A guard over one render pass: it accumulates the pass's commands and is
/// closed back into the renderer with `Renderer::end_pass`.
#[derive(Debug)]
pub struct RenderPassGuard {
    pub commands: Vec<Command>,
    pub pass_open: bool,
    pub target: PassTarget,
}

impl RenderPassGuard {
    /// Open the render pass over the guard's target. Opening a second pass
    /// before the first is closed, or a pass without a target, is an
    /// invalid-operation error.
    pub fn render_pass(&mut self, clear_color: Option<Color>) -> (r: Result<(), GeepuError>)
        ensures
            r is Ok <==> (!old(self).pass_open && !(old(self).target is NoTarget)),
            r matches Err(e) ==> e matches GeepuError::InvalidOperation(_) && *final(self) == *old(
                self,
            ),
            r is Ok ==> {
                &&& final(self).pass_open
                &&& final(self).target == old(self).target
                &&& final(self).commands@ =~= old(self).commands@.push(
                    Command::BeginRenderPass { clear_color, has_depth: false },
                )
            },
    {
        if self.pass_open {
            return Err(
                GeepuError::InvalidOperation(
                    "a pass is already open on this recording session".to_owned(),
                ),
            );
        }
        match self.target {
            PassTarget::NoTarget => Err(
                GeepuError::InvalidOperation("no render target or surface available".to_owned()),
            ),
            _ => {
                self.commands.push(Command::BeginRenderPass { clear_color, has_depth: false });
                self.pass_open = true;
                Ok(())
            },
        }
    }

    /// Record an indexed draw. Fails when no pass is open on the guard.
    pub fn draw_indexed(
        &mut self,
        indices: core::ops::Range<u32>,
        base_vertex: i32,
        instances: core::ops::Range<u32>,
    ) -> (r: Result<(), GeepuError>)
        ensures
            r is Ok <==> old(self).pass_open,
            r matches Err(e) ==> e matches GeepuError::InvalidOperation(_) && *final(self) == *old(
                self,
            ),
            r is Ok ==> {
                &&& final(self).pass_open
                &&& final(self).target == old(self).target
                &&& final(self).commands@ =~= old(self).commands@.push(
                    Command::DrawIndexed {
                        first_index: indices.start,
                        end_index: indices.end,
                        base_vertex,
                        first_instance: instances.start,
                        end_instance: instances.end,
                    },
                )
            },
    {
        if !self.pass_open {
            return Err(
                GeepuError::InvalidOperation("no pass is open; call render_pass first".to_owned()),
            );
        }
        self.commands.push(
            Command::DrawIndexed {
                first_index: indices.start,
                end_index: indices.end,
                base_vertex,
                first_instance: instances.start,
                end_instance: instances.end,
            },
        );
        Ok(())
    }
}

/// Main renderer that owns the GPU context and the registries, and drives
/// the per-frame lifecycle.
#[derive(Debug)]
pub struct Renderer {
    /// The device connection and queue model.
    pub gpu: GpuContext,
    /// Offscreen render target (for offscreen rendering).
    pub render_target: Option<TextureResource>,
    /// Current encoder for batching commands.
    pub encoder: Option<CommandEncoder>,
    /// Resource manager.
    pub resources: ResourceManager,
    /// Shader manager.
    pub shaders: ShaderManager,
    /// Compute pipelines by name.
    pub compute_pipelines: NamedStore<ComputePipeline>,
    /// Current size.
    pub size: Size,
}

impl Renderer {
    /// The registries are unambiguous.
    pub open spec fn wf(&self) -> bool {
        &&& self.resources.wf()
        &&& self.shaders.wf()
        &&& self.compute_pipelines.wf()
    }

    /// All parts of the renderer other than the queue, the encoder and the
    /// resource registries are unchanged.
    pub open spec fn same_but_registries_and_queue(a: Renderer, b: Renderer) -> bool {
        &&& a.gpu.surface_config == b.gpu.surface_config
        &&& a.gpu.features == b.gpu.features
        &&& a.render_target == b.render_target
        &&& a.size == b.size
    }

    /// Create an offscreen renderer of the given size, with an RGBA8 sRGB
    /// render target and no presentation surface.
    pub fn offscreen(size: Size) -> (r: Result<Renderer, GeepuError>)
        ensures
            r is Ok,
            r matches Ok(rr) ==> rr.wf() && Renderer::spec_offscreen_initial(rr, size),
    {
        Self::offscreen_with_gpu_config(size, GpuConfig::default())
    }

    /// What a fresh offscreen renderer looks like.
    pub open spec fn spec_offscreen_initial(rr: Renderer, size: Size) -> bool {
        &&& rr.gpu.queue.writes@.len() == 0
        &&& rr.gpu.queue.submitted@.len() == 0
        &&& rr.gpu.surface_config is None
        &&& rr.render_target matches Some(t) && t.texture.width == size.width
            && t.texture.height == size.height && t.texture.format
            == TextureFormat::Rgba8UnormSrgb
        &&& rr.encoder is None
        &&& rr.resources.uniforms@ =~= Map::<Seq<char>, crate::resources::StoredBuffer>::empty()
        &&& rr.resources.storage_buffers@ =~= Map::<
            Seq<char>,
            crate::resources::StoredBuffer,
        >::empty()
        &&& rr.resources.textures@ =~= Map::<Seq<char>, TextureResource>::empty()
        &&& rr.shaders.vertex_shaders@ =~= Map::<
            Seq<char>,
            crate::shaders::ShaderModule,
        >::empty()
        &&& rr.shaders.fragment_shaders@ =~= Map::<
            Seq<char>,
            crate::shaders::ShaderModule,
        >::empty()
        &&& rr.shaders.compute_shaders@ =~= Map::<
            Seq<char>,
            crate::shaders::ShaderModule,
        >::empty()
        &&& rr.compute_pipelines@ =~= Map::<Seq<char>, ComputePipeline>::empty()
        &&& rr.size == size
    }

    /// Create an offscreen renderer with a custom GPU configuration.
    pub fn offscreen_with_gpu_config(size: Size, gpu_config: GpuConfig) -> (r: Result<
        Renderer,
        GeepuError,
    >)
        ensures
            r is Ok,
            r matches Ok(rr) ==> rr.wf() && Renderer::spec_offscreen_initial(rr, size),
    {
        let gpu = GpuContext::new_with_features(gpu_config.features);
        let render_target = TextureResource::create_render_target(
            &gpu,
            size.width,
            size.height,
            TextureFormat::Rgba8UnormSrgb,
            Some("offscreen_render_target"),
        );
        Ok(
            Renderer {
                gpu,
                render_target: Some(render_target),
                encoder: None,
                resources: ResourceManager::new(),
                shaders: ShaderManager::new(),
                compute_pipelines: NamedStore::new(),
                size,
            },
        )
    }

    /// Create a windowed renderer around an already negotiated surface:
    /// the embedding application acquires the device and surface, selects
    /// the surface format with `select_surface_format` and the present
    /// mode with `select_present_mode`, and hands the results here.
    pub fn windowed(
        window_config: &WindowConfig,
        surface_format: TextureFormat,
        present_mode: PresentMode,
        alpha_mode: CompositeAlphaMode,
    ) -> (r: Renderer)
        ensures
            r.wf(),
            r.gpu.queue.writes@.len() == 0,
            r.gpu.queue.submitted@.len() == 0,
            r.gpu.surface_config == Some(SurfaceConfiguration {
                format: surface_format,
                width: window_config.size.width,
                height: window_config.size.height,
                present_mode,
                alpha_mode,
                desired_maximum_frame_latency: 2,
            }),
            r.render_target is None,
            r.encoder is None,
            r.size == window_config.size,
    {
        let mut gpu = GpuContext::new();
        gpu.configure_surface(
            SurfaceConfiguration {
                format: surface_format,
                width: window_config.size.width,
                height: window_config.size.height,
                present_mode,
                alpha_mode,
                desired_maximum_frame_latency: 2,
            },
        );
        Renderer {
            gpu,
            render_target: None,
            encoder: None,
            resources: ResourceManager::new(),
            shaders: ShaderManager::new(),
            compute_pipelines: NamedStore::new(),
            size: window_config.size,
        }
    }

    /// Add a uniform buffer under `name`.
    pub fn add_uniform<T: bytemuck::Pod + 'static>(&mut self, name: &str, data: &T)
        requires
            old(self).wf(),
        ensures
            final(self).wf(),
            final(self).resources.uniforms@.contains_key(name@),
            final(self).resources.uniforms@[name@].elem_size == vstd::layout::size_of::<T>(),
            final(self).resources.uniforms@ =~= old(self).resources.uniforms@.insert(
                name@,
                final(self).resources.uniforms@[name@],
            ),
            final(self).resources.storage_buffers == old(self).resources.storage_buffers,
            final(self).resources.textures == old(self).resources.textures,
            final(self).shaders == old(self).shaders,
            final(self).compute_pipelines == old(self).compute_pipelines,
            final(self).gpu == old(self).gpu,
            final(self).encoder == old(self).encoder,
            Renderer::same_but_registries_and_queue(*old(self), *final(self)),
    {
        let uniform = UniformBuffer::new(&self.gpu, data, Some(name));
        self.resources.add_uniform(name, uniform);
    }

    /// Queue an update of the uniform buffer stored under `name`: a
    /// missing name is a not-found error, and an entry stored with a
    /// different element type a type-mismatch error.
    pub fn update_uniform<T: bytemuck::Pod + 'static>(&mut self, name: &str, data: &T) -> (r: Result<
        (),
        GeepuError,
    >)
        requires
            old(self).wf(),
        ensures
            final(self).wf(),
            match r {
                Ok(_) => {
                    &&& old(self).resources.uniforms@.contains_key(name@)
                    &&& old(self).resources.uniforms@[name@].elem_size == vstd::layout::size_of::<
                        T,
                    >()
                    &&& queue_plus_write_of_len(
                        old(self).gpu.queue,
                        final(self).gpu.queue,
                        0,
                        vstd::layout::size_of::<T>() as int,
                    )
                    &&& final(self).resources == old(self).resources
                    &&& final(self).shaders == old(self).shaders
                    &&& final(self).compute_pipelines == old(self).compute_pipelines
                    &&& final(self).encoder == old(self).encoder
                    &&& Renderer::same_but_registries_and_queue(*old(self), *final(self))
                },
                Err(e) => *final(self) == *old(self) && (match e {
                    GeepuError::ResourceNotFound(_) => !old(self).resources.uniforms@.contains_key(
                        name@,
                    ),
                    GeepuError::TypeMismatch(_) => old(self).resources.uniforms@.contains_key(
                        name@,
                    ),
                    _ => false,
                }),
            },
    {
        match self.resources.get_uniform::<T>(name) {
            Ok(_) => {},
            Err(e) => {
                return Err(e);
            },
        }
        let bytes = crate::buffer::pod_bytes_one(data);
        self.gpu.queue.writes.push(crate::context::QueuedWrite::Buffer { offset: 0, bytes });
        Ok(())
    }

    /// Add a writable storage buffer under `name`.
    pub fn add_storage_buffer<T: bytemuck::Pod + 'static>(&mut self, name: &str, data: &[T])
        requires
            old(self).wf(),
        ensures
            final(self).wf(),
            final(self).resources.storage_buffers@.contains_key(name@),
            final(self).resources.storage_buffers@[name@].elem_size == vstd::layout::size_of::<
                T,
            >(),
            final(self).resources.storage_buffers@[name@].len == data@.len(),
            final(self).resources.storage_buffers@[name@].read_only,
            final(self).resources.storage_buffers@ =~= old(
                self,
            ).resources.storage_buffers@.insert(
                name@,
                final(self).resources.storage_buffers@[name@],
            ),
            final(self).resources.uniforms == old(self).resources.uniforms,
            final(self).resources.textures == old(self).resources.textures,
            final(self).shaders == old(self).shaders,
            final(self).compute_pipelines == old(self).compute_pipelines,
            final(self).gpu == old(self).gpu,
            final(self).encoder == old(self).encoder,
            Renderer::same_but_registries_and_queue(*old(self), *final(self)),
    {
        self.add_storage_buffer_with_access(name, data, true)
    }

    /// Add a storage buffer under `name` with a specific access mode.
    pub fn add_storage_buffer_with_access<T: bytemuck::Pod + 'static>(
        &mut self,
        name: &str,
        data: &[T],
        read_only: bool,
    )
        requires
            old(self).wf(),
        ensures
            final(self).wf(),
            final(self).resources.storage_buffers@.contains_key(name@),
            final(self).resources.storage_buffers@[name@].elem_size == vstd::layout::size_of::<
                T,
            >(),
            final(self).resources.storage_buffers@[name@].len == data@.len(),
            final(self).resources.storage_buffers@[name@].read_only == read_only,
            final(self).resources.storage_buffers@ =~= old(
                self,
            ).resources.storage_buffers@.insert(
                name@,
                final(self).resources.storage_buffers@[name@],
            ),
            final(self).resources.uniforms == old(self).resources.uniforms,
            final(self).resources.textures == old(self).resources.textures,
            final(self).shaders == old(self).shaders,
            final(self).compute_pipelines == old(self).compute_pipelines,
            final(self).gpu == old(self).gpu,
            final(self).encoder == old(self).encoder,
            Renderer::same_but_registries_and_queue(*old(self), *final(self)),
    {
        let buffer = StorageBuffer::new(&self.gpu, data, read_only, Some(name));
        self.resources.add_storage_buffer(name, buffer);
    }

    /// Queue an update of the storage buffer stored under `name`: a
    /// missing name is a not-found error, and an entry stored with a
    /// different element type a type-mismatch error.
    pub fn update_storage_buffer<T: bytemuck::Pod + 'static>(&mut self, name: &str, data: &[T]) -> (r:
        Result<(), GeepuError>)
        requires
            old(self).wf(),
        ensures
            final(self).wf(),
            match r {
                Ok(_) => {
                    &&& old(self).resources.storage_buffers@.contains_key(name@)
                    &&& old(self).resources.storage_buffers@[name@].elem_size
                        == vstd::layout::size_of::<T>()
                    &&& queue_plus_write_of_len(
                        old(self).gpu.queue,
                        final(self).gpu.queue,
                        0,
                        (data@.len() * vstd::layout::size_of::<T>()) as int,
                    )
                    &&& final(self).resources == old(self).resources
                    &&& final(self).shaders == old(self).shaders
                    &&& final(self).compute_pipelines == old(self).compute_pipelines
                    &&& final(self).encoder == old(self).encoder
                    &&& Renderer::same_but_registries_and_queue(*old(self), *final(self))
                },
                Err(e) => *final(self) == *old(self) && (match e {
                    GeepuError::ResourceNotFound(_) => !old(
                        self,
                    ).resources.storage_buffers@.contains_key(name@),
                    GeepuError::TypeMismatch(_) => old(
                        self,
                    ).resources.storage_buffers@.contains_key(name@),
                    _ => false,
                }),
            },
    {
        match self.resources.get_storage_buffer::<T>(name) {
            Ok(_) => {},
            Err(e) => {
                return Err(e);
            },
        }
        let bytes = crate::buffer::pod_bytes(data);
        self.gpu.queue.writes.push(crate::context::QueuedWrite::Buffer { offset: 0, bytes });
        Ok(())
    }

    /// Add a texture from an image under `name`: the image is converted to
    /// RGBA8 and its pixels are queued as a texture write covering the
    /// stored texture exactly.
    pub fn add_texture(&mut self, name: &str, image: image::DynamicImage) -> (r: Result<
        (),
        GeepuError,
    >)
        requires
            old(self).wf(),
        ensures
            r is Ok,
            final(self).wf(),
            final(self).resources.textures@.contains_key(name@),
            final(self).resources.textures@ =~= old(self).resources.textures@.insert(
                name@,
                final(self).resources.textures@[name@],
            ),
            final(self).resources.textures@[name@].wf(),
            final(self).resources.textures@[name@].texture.width == crate::resources::image_width(
                image,
            ),
            final(self).resources.textures@[name@].texture.height
                == crate::resources::image_height(image),
            final(self).resources.textures@[name@].texture.format
                == TextureFormat::Rgba8UnormSrgb,
            final(self).resources.uniforms == old(self).resources.uniforms,
            final(self).resources.storage_buffers == old(self).resources.storage_buffers,
            final(self).shaders == old(self).shaders,
            final(self).compute_pipelines == old(self).compute_pipelines,
            final(self).encoder == old(self).encoder,
            final(self).gpu.queue.submitted == old(self).gpu.queue.submitted,
            final(self).gpu.queue.writes@.len() == old(self).gpu.queue.writes@.len() + 1,
            final(self).gpu.queue.writes@.subrange(0, old(self).gpu.queue.writes@.len() as int)
                =~= old(self).gpu.queue.writes@,
            final(self).gpu.queue.writes@.last() matches crate::context::QueuedWrite::Texture {
                width: w,
                height: h,
                bytes_per_row: bpr,
                rows_per_image: rpi,
                bytes: b,
            } && w == crate::resources::image_width(image) && h == crate::resources::image_height(
                image,
            ) && bpr == 4 * crate::resources::image_width(image) && rpi
                == crate::resources::image_height(image) && b@ == crate::resources::image_rgba8(
                image,
            ).take(
                4 * (crate::resources::image_width(image) as int) * (
                crate::resources::image_height(image) as int),
            ),
            Renderer::same_but_registries_and_queue(*old(self), *final(self)),
    {
        let mut queue = crate::context::GpuQueue::new();
        core::mem::swap(&mut queue, &mut self.gpu.queue);
        let result = TextureResource::from_image(&self.gpu, &mut queue, &image, Some(name));
        core::mem::swap(&mut queue, &mut self.gpu.queue);
        let texture = match result {
            Ok(t) => t,
            Err(e) => {
                proof {
                    assert(false);
                }
                return Err(e);
            },
        };
        self.resources.add_texture(name, texture);
        Ok(())
    }

    /// Load a compute shader under `name`.
    pub fn add_compute_shader(&mut self, name: &str, source: &str) -> (r: Result<(), GeepuError>)
        requires
            old(self).wf(),
        ensures
            r is Ok,
            final(self).wf(),
            final(self).shaders.compute_shaders@.contains_key(name@),
            final(self).shaders.compute_shaders@[name@].source@ == source@,
            final(self).shaders.compute_shaders@ =~= old(self).shaders.compute_shaders@.insert(
                name@,
                final(self).shaders.compute_shaders@[name@],
            ),
            final(self).shaders.vertex_shaders == old(self).shaders.vertex_shaders,
            final(self).shaders.fragment_shaders == old(self).shaders.fragment_shaders,
            final(self).resources == old(self).resources,
            final(self).compute_pipelines == old(self).compute_pipelines,
            final(self).gpu == old(self).gpu,
            final(self).encoder == old(self).encoder,
            Renderer::same_but_registries_and_queue(*old(self), *final(self)),
    {
        let gpu = &self.gpu;
        self.shaders.load_compute_shader(gpu, name, source)
    }

    /// Create a compute pipeline under `name` from a previously loaded
    /// compute shader: succeeds exactly when the shader name is registered
    /// for the compute stage.
    pub fn create_compute_pipeline(
        &mut self,
        name: &str,
        shader_name: &str,
        entry_point: &str,
        bind_group_layouts: &[&crate::pipeline::BindGroupLayout],
        workgroup_size: (u32, u32, u32),
    ) -> (r: Result<(), GeepuError>)
        requires
            old(self).wf(),
        ensures
            final(self).wf(),
            r is Ok <==> old(self).shaders.compute_shaders@.contains_key(shader_name@),
            r matches Err(e) ==> e matches GeepuError::ResourceNotFound(_) && *final(self) == *old(
                self,
            ),
            r is Ok ==> {
                &&& final(self).compute_pipelines@.contains_key(name@)
                &&& final(self).compute_pipelines@[name@].entry_point@ == entry_point@
                &&& final(self).compute_pipelines@[name@].workgroup_size == workgroup_size
                &&& final(self).compute_pipelines@[name@].bind_group_layouts@.len()
                    == bind_group_layouts@.len()
                &&& final(self).compute_pipelines@ =~= old(self).compute_pipelines@.insert(
                    name@,
                    final(self).compute_pipelines@[name@],
                )
                &&& final(self).resources == old(self).resources
                &&& final(self).shaders == old(self).shaders
                &&& final(self).gpu == old(self).gpu
                &&& final(self).encoder == old(self).encoder
                &&& Renderer::same_but_registries_and_queue(*old(self), *final(self))
            },
    {
        let pipeline = {
            let shader = match self.shaders.get_compute_shader(shader_name) {
                Ok(s) => s,
                Err(e) => {
                    return Err(e);
                },
            };
            ComputePipeline::new(
                &self.gpu,
                shader,
                entry_point,
                bind_group_layouts,
                workgroup_size,
                Some(name),
            )
        };
        self.compute_pipelines.insert(name, pipeline);
        Ok(())
    }

    /// Record a whole compute pass dispatching the pipeline stored under
    /// `name`: fails with not-found when no such pipeline exists, and with
    /// an invalid-operation error when no encoder is active.
    pub fn dispatch_compute(&mut self, name: &str, x: u32, y: u32, z: u32) -> (r: Result<
        (),
        GeepuError,
    >)
        requires
            old(self).wf(),
        ensures
            final(self).wf(),
            r is Ok <==> (old(self).compute_pipelines@.contains_key(name@) && old(
                self,
            ).encoder is Some),
            r matches Err(e) ==> *final(self) == *old(self) && (match e {
                GeepuError::ResourceNotFound(_) => !old(self).compute_pipelines@.contains_key(
                    name@,
                ),
                GeepuError::InvalidOperation(_) => old(self).compute_pipelines@.contains_key(name@)
                    && old(self).encoder is None,
                _ => false,
            }),
            r is Ok ==> {
                &&& final(self).encoder matches Some(enc) && old(self).encoder matches Some(
                    old_enc,
                ) && {
                    &&& enc.commands@.len() == old_enc.commands@.len() + 4
                    &&& enc.commands@.subrange(0, old_enc.commands@.len() as int)
                        =~= old_enc.commands@
                    &&& enc.commands@[old_enc.commands@.len() as int] matches
                        Command::BeginComputePass { label: Some(l) } && l@ == name@
                    &&& enc.commands@[old_enc.commands@.len() as int + 1] matches
                        Command::SetComputePipeline { entry_point: e } && e@ == old(
                        self,
                    ).compute_pipelines@[name@].entry_point@
                    &&& enc.commands@[old_enc.commands@.len() as int + 2] == (Command::DispatchWorkgroups {
                        x,
                        y,
                        z,
                    })
                    &&& enc.commands@[old_enc.commands@.len() as int + 3] == Command::EndComputePass
                }
                &&& final(self).resources == old(self).resources
                &&& final(self).shaders == old(self).shaders
                &&& final(self).compute_pipelines == old(self).compute_pipelines
                &&& final(self).gpu == old(self).gpu
                &&& Renderer::same_but_registries_and_queue(*old(self), *final(self))
            },
    {
        let entry_point: String = {
            let pipeline = match self.compute_pipelines.get(name) {
                Some(p) => p,
                None => {
                    return Err(GeepuError::ResourceNotFound(name.to_owned()));
                },
            };
            pipeline.entry_point.clone()
        };
        match &mut self.encoder {
            Some(encoder) => {
                encoder.commands.push(
                    Command::BeginComputePass { label: Some(name.to_owned()) },
                );
                encoder.commands.push(Command::SetComputePipeline { entry_point });
                encoder.commands.push(Command::DispatchWorkgroups { x, y, z });
                encoder.commands.push(Command::EndComputePass);
                Ok(())
            },
            None => Err(
                GeepuError::InvalidOperation(
                    "no active command encoder; call begin_pass first".to_owned(),
                ),
            ),
        }
    }

    /// Begin a recording session: a fresh encoder replaces any existing
    /// one, and the returned guard targets the render target or surface.
    pub fn begin_pass(&mut self) -> (r: RenderPassGuard)
        ensures
            final(self).encoder matches Some(enc) && enc.commands@.len() == 0,
            final(self).gpu == old(self).gpu,
            final(self).resources == old(self).resources,
            final(self).shaders == old(self).shaders,
            final(self).compute_pipelines == old(self).compute_pipelines,
            Renderer::same_but_registries_and_queue(*old(self), *final(self)),
            r.commands@.len() == 0,
            !r.pass_open,
            r.target == (match old(self).render_target {
                Some(t) => PassTarget::Offscreen {
                    width: t.texture.width,
                    height: t.texture.height,
                    format: t.texture.format,
                },
                None => match old(self).gpu.surface_config {
                    Some(c) => PassTarget::Surface {
                        width: c.width,
                        height: c.height,
                        format: c.format,
                    },
                    None => PassTarget::NoTarget,
                },
            }),
    {
        self.encoder = Some(CommandEncoder::new());
        let target = match &self.render_target {
            Some(t) => PassTarget::Offscreen {
                width: t.texture.width,
                height: t.texture.height,
                format: t.texture.format,
            },
            None => match &self.gpu.surface_config {
                Some(c) => PassTarget::Surface {
                    width: c.width,
                    height: c.height,
                    format: c.format,
                },
                None => PassTarget::NoTarget,
            },
        };
        RenderPassGuard { commands: Vec::new(), pass_open: false, target }
    }

    /// Close a pass guard back into the renderer's encoder. Fails when no
    /// encoder is active.
    pub fn end_pass(&mut self, guard: RenderPassGuard) -> (r: Result<(), GeepuError>)
        ensures
            r is Ok <==> old(self).encoder is Some,
            r matches Err(e) ==> e matches GeepuError::InvalidOperation(_) && *final(self) == *old(
                self,
            ),
            r is Ok ==> {
                &&& final(self).encoder matches Some(enc) && old(self).encoder matches Some(
                    old_enc,
                ) && enc.commands@ =~= old_enc.commands@ + guard.commands@ + (if guard.pass_open {
                    seq![Command::EndRenderPass]
                } else {
                    Seq::<Command>::empty()
                })
                &&& final(self).gpu == old(self).gpu
                &&& final(self).resources == old(self).resources
                &&& final(self).shaders == old(self).shaders
                &&& final(self).compute_pipelines == old(self).compute_pipelines
                &&& Renderer::same_but_registries_and_queue(*old(self), *final(self))
            },
    {
        match &mut self.encoder {
            Some(encoder) => {
                let mut commands = guard.commands;
                encoder.commands.append(&mut commands);
                if guard.pass_open {
                    encoder.commands.push(Command::EndRenderPass);
                }
                Ok(())
            },
            None => Err(GeepuError::InvalidOperation("no active command encoder".to_owned())),
        }
    }

    /// Submit all pending commands: the active encoder's commands are
    /// pushed onto the queue and the encoder is cleared. Without an
    /// encoder this does nothing.
    pub fn submit(&mut self)
        ensures
            final(self).encoder is None,
            final(self).resources == old(self).resources,
            final(self).shaders == old(self).shaders,
            final(self).compute_pipelines == old(self).compute_pipelines,
            Renderer::same_but_registries_and_queue(*old(self), *final(self)),
            match old(self).encoder {
                Some(enc) => queue_plus_submission(
                    old(self).gpu.queue,
                    final(self).gpu.queue,
                    enc.commands@,
                ),
                None => final(self).gpu == old(self).gpu,
            },
    {
        let mut taken: Option<CommandEncoder> = None;
        core::mem::swap(&mut taken, &mut self.encoder);
        match taken {
            Some(encoder) => {
                let buffer = encoder.finish();
                self.gpu.queue.submitted.push(buffer);
            },
            None => {},
        }
    }

    /// Get the current surface texture (for windowed rendering). Fails for
    /// renderers without a surface.
    pub fn get_surface_texture(&self) -> (r: Result<SurfaceTexture, GeepuError>)
        ensures
            match self.gpu.surface_config {
                Some(c) => r == Ok::<SurfaceTexture, GeepuError>(SurfaceTexture {
                    width: c.width,
                    height: c.height,
                    format: c.format,
                }),
                None => r matches Err(GeepuError::InvalidOperation(_)),
            },
    {
        self.gpu.get_current_texture()
    }

    /// Present an acquired frame. Presentation itself is the driver's; the
    /// model records nothing.
    pub fn present(&self, _texture: SurfaceTexture) {
    }

    /// Resize the renderer: ignored for zero sizes; otherwise the surface
    /// configuration tracks the new size and the offscreen render target
    /// is recreated at it.
    pub fn resize(&mut self, new_size: Size) -> (r: Result<(), GeepuError>)
        ensures
            r is Ok,
            final(self).resources == old(self).resources,
            final(self).shaders == old(self).shaders,
            final(self).compute_pipelines == old(self).compute_pipelines,
            final(self).encoder == old(self).encoder,
            final(self).gpu.queue == old(self).gpu.queue,
            final(self).gpu.features == old(self).gpu.features,
            (new_size.width == 0 || new_size.height == 0) ==> *final(self) == *old(self),
            (new_size.width > 0 && new_size.height > 0) ==> {
                &&& final(self).size == new_size
                &&& match old(self).gpu.surface_config {
                    Some(c) => final(self).gpu.surface_config == Some(SurfaceConfiguration {
                        width: new_size.width,
                        height: new_size.height,
                        ..c
                    }),
                    None => final(self).gpu.surface_config is None,
                }
                &&& match old(self).render_target {
                    Some(_) => final(self).render_target matches Some(t) && t.texture.width
                        == new_size.width && t.texture.height == new_size.height
                        && t.texture.format == TextureFormat::Rgba8UnormSrgb,
                    None => final(self).render_target is None,
                }
            },
    {
        if new_size.width == 0 || new_size.height == 0 {
            return Ok(());
        }
        self.size = new_size;
        match &self.gpu.surface_config {
            Some(c) => {
                self.gpu.surface_config = Some(
                    SurfaceConfiguration {
                        width: new_size.width,
                        height: new_size.height,
                        ..*c
                    },
                );
            },
            None => {},
        }
        match &self.render_target {
            Some(_) => {
                let target = TextureResource::create_render_target(
                    &self.gpu,
                    new_size.width,
                    new_size.height,
                    TextureFormat::Rgba8UnormSrgb,
                    Some("offscreen_render_target"),
                );
                self.render_target = Some(target);
            },
            None => {},
        }
        Ok(())
    }
}

/// The layout of a read-back of the offscreen render target: the staging
/// buffer size and row layout the device-to-host copy must use.
#[derive(Debug, Clone, Copy, PartialEq, Eq, Structural)]
pub struct ReadbackPlan {
    pub buffer_size: u64,
    pub bytes_per_row: u64,
    pub rows_per_image: u32,
    pub width: u32,
    pub height: u32,
}

impl Renderer {
    /// Plan and record a copy of the render target into a read-back
    /// buffer: a texture-to-buffer copy of the whole target is submitted,
    /// and the returned plan says how large the staging buffer must be and
    /// how its rows are laid out (RGBA8: four bytes per pixel). Fails for
    /// renderers without a render target.
    pub fn copy_to_buffer(&mut self) -> (r: Result<ReadbackPlan, GeepuError>)
        requires
            4 * old(self).size.width * old(self).size.height <= u64::MAX,
        ensures
            r is Ok <==> old(self).render_target is Some,
            r matches Err(e) ==> e matches GeepuError::InvalidOperation(_) && *final(self) == *old(
                self,
            ),
            r matches Ok(plan) ==> {
                &&& plan.width == old(self).size.width
                &&& plan.height == old(self).size.height
                &&& plan.bytes_per_row == 4 * old(self).size.width
                &&& plan.rows_per_image == old(self).size.height
                &&& plan.buffer_size == 4 * old(self).size.width * old(self).size.height
                &&& queue_plus_submission(
                    old(self).gpu.queue,
                    final(self).gpu.queue,
                    seq![
                        Command::CopyTextureToBuffer {
                            width: old(self).size.width,
                            height: old(self).size.height,
                            bytes_per_row: (4 * old(self).size.width) as u64,
                            rows_per_image: old(self).size.height,
                        },
                    ],
                )
                &&& final(self).resources == old(self).resources
                &&& final(self).shaders == old(self).shaders
                &&& final(self).compute_pipelines == old(self).compute_pipelines
                &&& final(self).encoder == old(self).encoder
                &&& Renderer::same_but_registries_and_queue(*old(self), *final(self))
            },
    {
        match &self.render_target {
            Some(_) => {},
            None => {
                return Err(
                    GeepuError::InvalidOperation(
                        "no render target available for windowed renderer".to_owned(),
                    ),
                );
            },
        }
        let width = self.size.width;
        let height = self.size.height;
        let bytes_per_row: u64 = 4u64 * (width as u64);
        let buffer_size: u64 = bytes_per_row * (height as u64);
        let mut commands: Vec<Command> = Vec::new();
        commands.push(
            Command::CopyTextureToBuffer {
                width,
                height,
                bytes_per_row,
                rows_per_image: height,
            },
        );
        self.gpu.queue.submitted.push(crate::context::CommandBuffer { commands });
        Ok(ReadbackPlan { buffer_size, bytes_per_row, rows_per_image: height, width, height })
    }
}

} // verus!

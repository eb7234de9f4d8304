//! The GPU context model: a logical device connection with its command
//! queue, plus the command-stream and queued-write bookkeeping that the
//! embedding application drains and hands to the driver.

use vstd::prelude::*;

use core::marker::PhantomData;

use crate::buffer::{pod_bytes_one, Buffer, BufferUsages, TypedBuffer, VertexBufferLayout};
use crate::config::{Features, Size};
use crate::error::GeepuError;
use crate::pipeline::{
    group_matches_layout, BindGroup, BindGroupBuilder, BindGroupEntry, BindGroupLayout,
    BindGroupLayoutBuilder, BindGroupLayoutEntry, BindingKind, BlendState, BoundResource,
    ColorTargetState, ColorWrites, ComputePipeline, PipelineBuilder, ShaderStages,
    SimpleRenderPipeline,
};
use crate::texture::{Texture, TextureFormat};

verus! {

/// Format of index buffer contents.
#[derive(Debug, Clone, Copy, PartialEq, Eq, Structural)]
pub enum IndexFormat {
    Uint16,
    Uint32,
}

/// An 8-bit-per-channel RGBA clear color.
#[derive(Debug, Clone, Copy, PartialEq, Eq, Structural)]
pub struct Color {
    pub r: u8,
    pub g: u8,
    pub b: u8,
    pub a: u8,
}

impl Color {
    /// Opaque black.
    pub fn black() -> (c: Self)
        ensures
            c == (Color { r: 0, g: 0, b: 0, a: 255 }),
    {
        Color { r: 0, g: 0, b: 0, a: 255 }
    }
}

/// One recorded command, as the model sees it: the shape of the call and the
/// plain values it carried, in recording order.
#[derive(Debug, Clone, PartialEq, Eq)]
pub enum Command {
    BeginRenderPass { clear_color: Option<Color>, has_depth: bool },
    EndRenderPass,
    BeginComputePass { label: Option<String> },
    EndComputePass,
    SetRenderPipeline,
    SetComputePipeline { entry_point: String },
    SetBindGroup { index: u32, dynamic_offsets: Vec<u32> },
    SetVertexBuffer { slot: u32, byte_len: u64 },
    SetIndexBuffer { format: IndexFormat, byte_len: u64 },
    Draw { first_vertex: u32, end_vertex: u32, first_instance: u32, end_instance: u32 },
    DrawIndexed {
        first_index: u32,
        end_index: u32,
        base_vertex: i32,
        first_instance: u32,
        end_instance: u32,
    },
    DispatchWorkgroups { x: u32, y: u32, z: u32 },
    DispatchWorkgroupsIndirect { offset: u64 },
    CopyBufferToBuffer { source_offset: u64, destination_offset: u64, size: u64 },
    CopyBufferToTexture { width: u32, height: u32 },
    CopyTextureToBuffer { width: u32, height: u32, bytes_per_row: u64, rows_per_image: u32 },
    InsertDebugMarker { label: String },
    PushDebugGroup { label: String },
    PopDebugGroup,
}

/// A finished command buffer: the commands of one recording session, in order.
#[derive(Debug, Clone, PartialEq, Eq)]
pub struct CommandBuffer {
    pub commands: Vec<Command>,
}

/// An open command encoder accumulating commands.
#[derive(Debug, Clone, PartialEq, Eq)]
pub struct CommandEncoder {
    pub commands: Vec<Command>,
}

impl CommandEncoder {
    /// A fresh encoder with no commands.
    pub fn new() -> (r: Self)
        ensures
            r.commands@ =~= Seq::<Command>::empty(),
    {
        CommandEncoder { commands: Vec::new() }
    }

    /// Finish the encoder into an immutable command buffer.
    pub fn finish(self) -> (r: CommandBuffer)
        ensures
            r.commands@ == self.commands@,
    {
        CommandBuffer { commands: self.commands }
    }
}

/// A write queued on the device queue, to be applied before the next
/// submission's commands execute.
#[derive(Debug, Clone, PartialEq, Eq)]
pub enum QueuedWrite {
    /// A buffer write at a byte offset.
    Buffer { offset: u64, bytes: Vec<u8> },
    /// A texture write covering `width * height` texels with the given
    /// row layout.
    Texture { width: u32, height: u32, bytes_per_row: u64, rows_per_image: u32, bytes: Vec<u8> },
}

/// The device queue model: writes queued since the last drain, and the
/// command buffers submitted for execution, in submission order.
#[derive(Debug, Clone, PartialEq, Eq)]
pub struct GpuQueue {
    pub writes: Vec<QueuedWrite>,
    pub submitted: Vec<CommandBuffer>,
}

impl GpuQueue {
    /// A fresh, empty queue.
    pub fn new() -> (r: Self)
        ensures
            r.writes@ =~= Seq::<QueuedWrite>::empty(),
            r.submitted@ =~= Seq::<CommandBuffer>::empty(),
    {
        GpuQueue { writes: Vec::new(), submitted: Vec::new() }
    }
}

/// Holds when `new_q` is `old_q` with exactly one texture write appended,
/// covering `width * height` texels of `bytes` with the given row layout,
/// and nothing else changed.
pub open spec fn queue_plus_texture_write(
    old_q: GpuQueue,
    new_q: GpuQueue,
    width: u32,
    height: u32,
    bytes_per_row: int,
    bytes: Seq<u8>,
) -> bool {
    &&& new_q.submitted == old_q.submitted
    &&& new_q.writes@.len() == old_q.writes@.len() + 1
    &&& new_q.writes@.subrange(0, old_q.writes@.len() as int) =~= old_q.writes@
    &&& new_q.writes@.last() matches QueuedWrite::Texture {
        width: w,
        height: h,
        bytes_per_row: bpr,
        rows_per_image: rpi,
        bytes: b,
    } && w == width && h == height && bpr == bytes_per_row && rpi == height && b@ =~= bytes
}

/// Holds when `new_q` is `old_q` with one command buffer appended and the
/// queued writes unchanged.
pub open spec fn queue_plus_submission(
    old_q: GpuQueue,
    new_q: GpuQueue,
    commands: Seq<Command>,
) -> bool {
    &&& new_q.writes == old_q.writes
    &&& new_q.submitted@.len() == old_q.submitted@.len() + 1
    &&& new_q.submitted@.subrange(0, old_q.submitted@.len() as int) =~= old_q.submitted@
    &&& new_q.submitted@.last().commands@ =~= commands
}

/// The state of a command recording session.
#[derive(Debug, Clone, Copy, PartialEq, Eq, Structural)]
pub enum SessionState {
    /// The session records commands; passes may be opened and the session
    /// may be submitted.
    Recording,
    /// A pass is open; it must be closed before another pass is opened or
    /// the session is submitted.
    PassOpen,
    /// The session was submitted and cannot be used again.
    Submitted,
}

/// The extent of a texture copy.
#[derive(Debug, Clone, Copy, PartialEq, Eq, Structural)]
pub struct Extent3d {
    pub width: u32,
    pub height: u32,
    pub depth_or_array_layers: u32,
}

/// A buffer endpoint of a buffer/texture copy.
#[derive(Debug, Clone, Copy, PartialEq, Eq, Structural)]
pub struct ImageCopyBuffer {
    pub buffer: crate::buffer::Buffer,
    pub offset: u64,
    pub bytes_per_row: Option<u32>,
    pub rows_per_image: Option<u32>,
}

/// A texture endpoint of a buffer/texture copy.
#[derive(Debug, Clone, Copy, PartialEq, Eq, Structural)]
pub struct ImageCopyTexture {
    pub texture: crate::texture::Texture,
    pub mip_level: u32,
}

/// How the surface schedules presentation.
#[derive(Debug, Clone, Copy, PartialEq, Eq, Structural)]
pub enum PresentMode {
    AutoVsync,
    AutoNoVsync,
    Fifo,
    FifoRelaxed,
    Immediate,
    Mailbox,
}

/// How the surface composites with the rest of the desktop.
#[derive(Debug, Clone, Copy, PartialEq, Eq, Structural)]
pub enum CompositeAlphaMode {
    Auto,
    Opaque,
    PreMultiplied,
    PostMultiplied,
    Inherit,
}

/// Configuration of a presentation surface.
#[derive(Debug, Clone, Copy, PartialEq, Eq, Structural)]
pub struct SurfaceConfiguration {
    pub format: TextureFormat,
    pub width: u32,
    pub height: u32,
    pub present_mode: PresentMode,
    pub alpha_mode: CompositeAlphaMode,
    pub desired_maximum_frame_latency: u32,
}

/// A frame acquired from the surface, ready to be rendered to.
#[derive(Debug, Clone, Copy, PartialEq, Eq, Structural)]
pub struct SurfaceTexture {
    pub width: u32,
    pub height: u32,
    pub format: TextureFormat,
}

/// Main GPU context that stands for the device connection and its queue.
#[derive(Debug, Clone, PartialEq, Eq)]
pub struct GpuContext {
    /// The device queue model.
    pub queue: GpuQueue,
    /// The presentation surface configuration, when rendering to a window.
    pub surface_config: Option<SurfaceConfiguration>,
    /// The optional device features the context was created with.
    pub features: Features,
}

impl GpuContext {
    /// Create a new GPU context without a surface (for compute-only or
    /// offscreen work).
    pub fn new() -> (r: Self)
        ensures
            r.queue.writes@ =~= Seq::<QueuedWrite>::empty(),
            r.queue.submitted@ =~= Seq::<CommandBuffer>::empty(),
            r.surface_config is None,
            r.features.bits == 0,
    {
        GpuContext { queue: GpuQueue::new(), surface_config: None, features: Features::empty() }
    }

    /// Create a new GPU context with specific device features.
    pub fn new_with_features(features: Features) -> (r: Self)
        ensures
            r.queue.writes@ =~= Seq::<QueuedWrite>::empty(),
            r.queue.submitted@ =~= Seq::<CommandBuffer>::empty(),
            r.surface_config is None,
            r.features == features,
    {
        GpuContext { queue: GpuQueue::new(), surface_config: None, features }
    }

    /// Attach a configured presentation surface to the context.
    pub fn configure_surface(&mut self, config: SurfaceConfiguration)
        ensures
            final(self).queue == old(self).queue,
            final(self).features == old(self).features,
            final(self).surface_config == Some(config),
    {
        self.surface_config = Some(config);
    }

    /// Resize the surface; call when the window is resized. Dimensions are
    /// clamped to at least 1. Without a surface this is a no-op.
    pub fn resize(&mut self, new_size: Size) -> (r: Result<(), GeepuError>)
        ensures
            r is Ok,
            final(self).queue == old(self).queue,
            final(self).features == old(self).features,
            match old(self).surface_config {
                Some(c) => final(self).surface_config == Some(SurfaceConfiguration {
                    width: if new_size.width >= 1 { new_size.width } else { 1u32 },
                    height: if new_size.height >= 1 { new_size.height } else { 1u32 },
                    ..c
                }),
                None => final(self).surface_config is None,
            },
    {
        match &self.surface_config {
            Some(c) => {
                let width = if new_size.width >= 1 { new_size.width } else { 1u32 };
                let height = if new_size.height >= 1 { new_size.height } else { 1u32 };
                self.surface_config = Some(SurfaceConfiguration { width, height, ..*c });
                Ok(())
            },
            None => Ok(()),
        }
    }

    /// Get the current surface texture for rendering. Fails when the context
    /// was created without a window.
    pub fn get_current_texture(&self) -> (r: Result<SurfaceTexture, GeepuError>)
        ensures
            match self.surface_config {
                Some(c) => r == Ok::<SurfaceTexture, GeepuError>(SurfaceTexture {
                    width: c.width,
                    height: c.height,
                    format: c.format,
                }),
                None => r matches Err(GeepuError::InvalidOperation(_)),
            },
    {
        match &self.surface_config {
            Some(c) => Ok(SurfaceTexture { width: c.width, height: c.height, format: c.format }),
            None => Err(
                GeepuError::InvalidOperation(
                    "no surface available - context was created without window".to_owned(),
                ),
            ),
        }
    }

    /// Surface size, or `(0, 0)` without a surface.
    pub fn size(&self) -> (r: (u32, u32))
        ensures
            match self.surface_config {
                Some(c) => r == (c.width, c.height),
                None => r == (0u32, 0u32),
            },
    {
        match &self.surface_config {
            Some(c) => (c.width, c.height),
            None => (0u32, 0u32),
        }
    }

    /// Surface format, when a surface is configured.
    pub fn surface_format(&self) -> (r: Option<TextureFormat>)
        ensures
            match self.surface_config {
                Some(c) => r == Some(c.format),
                None => r is None,
            },
    {
        match &self.surface_config {
            Some(c) => Some(c.format),
            None => None,
        }
    }
}

/// Choose the surface format the way the windowed constructors do: the first
/// sRGB format the surface supports, else the first supported format.
/// Fails only when the driver reported no formats at all.
pub fn select_surface_format(formats: &Vec<TextureFormat>) -> (r: Result<
    TextureFormat,
    GeepuError,
>)
    ensures
        formats@.len() == 0 <==> r is Err,
        r matches Err(e) ==> e matches GeepuError::SurfaceCreationFailed(_),
        r matches Ok(f) ==> ((exists|i: int|
            0 <= i < formats@.len() && formats@[i] == f && formats@[i].spec_is_srgb() && (forall|
                j: int,
            | 0 <= j < i ==> !formats@[j].spec_is_srgb())) || ((forall|i: int|
            0 <= i < formats@.len() ==> !formats@[i].spec_is_srgb()) && f == formats@[0])),
{
    let n = formats.len();
    if n == 0 {
        return Err(GeepuError::SurfaceCreationFailed("surface reported no formats".to_owned()));
    }
    let mut i: usize = 0;
    while i < n
        invariant
            n == formats@.len(),
            0 <= i <= n,
            forall|j: int| 0 <= j < i ==> !formats@[j].spec_is_srgb(),
        decreases n - i,
    {
        if formats[i].is_srgb() {
            assert(formats@[i as int].spec_is_srgb());
            return Ok(formats[i]);
        }
        i = i + 1;
    }
    Ok(formats[0])
}

/// The compute layout entry `create_simple_compute` assigns at position
/// `p`: the uniform buffer at binding 0, storage buffers at bindings
/// `1 .. n`, all compute-only.
pub open spec fn simple_compute_layout_entry(p: int) -> BindGroupLayoutEntry {
    BindGroupLayoutEntry {
        binding: p as u32,
        visibility: ShaderStages { vertex: false, fragment: false, compute: true },
        ty: if p == 0 {
            BindingKind::UniformBuffer
        } else {
            BindingKind::StorageBuffer { read_only: false }
        },
    }
}

/// The layout `create_simple_compute` builds over `n_storage` storage
/// buffers.
pub open spec fn simple_compute_layout_entries(
    n_storage: int,
    ls: Seq<BindGroupLayoutEntry>,
) -> bool {
    &&& ls.len() == 1 + n_storage
    &&& forall|p: int| 0 <= p < ls.len() ==> (#[trigger] ls[p]) == simple_compute_layout_entry(p)
}

impl GpuContext {
    /// Create a render pipeline with a single uniform struct and optional
    /// textures: uniform binding 0 (vertex and fragment), texture bindings
    /// `1 .. 1+t` and sampler bindings `1+t .. 1+2t` (fragment-only). Fails
    /// exactly when the context has no surface to take the target format
    /// from.
    pub fn create_simple_pipeline<U: bytemuck::Pod>(
        &self,
        vs_src: &str,
        fs_src: &str,
        vertex_layouts: &[VertexBufferLayout],
        uniform: &U,
        textures: &[&Texture],
        label: Option<&str>,
    ) -> (r: Result<SimpleRenderPipeline, GeepuError>)
        requires
            1 + 2 * textures@.len() <= u32::MAX,
        ensures
            r is Ok <==> self.surface_config is Some,
            r matches Err(e) ==> e matches GeepuError::InvalidOperation(_),
            r matches Ok(sp) ==> {
                &&& sp.pipeline.vertex_source@ == vs_src@
                &&& sp.pipeline.fragment_source matches Some(f) && f@ == fs_src@
                &&& sp.pipeline.color_targets@.len() == 1
                &&& self.surface_config matches Some(c) && sp.pipeline.color_targets@[0] == Some(
                    ColorTargetState {
                        format: c.format,
                        blend: Some(BlendState::Replace),
                        write_mask: ColorWrites { r: true, g: true, b: true, a: true },
                    },
                )
                &&& sp.pipeline.bind_group_layouts@.len() == 1
                &&& crate::pipeline::simple_layout_entries(
                    1,
                    textures@.len() as int,
                    sp.pipeline.bind_group_layouts@[0].entries@,
                )
                &&& crate::pipeline::simple_group_entries(
                    seq![Buffer { size: vstd::layout::size_of::<U>() as u64 }],
                    textures@.len() as int,
                    sp.bind_group.entries@,
                )
                &&& group_matches_layout(
                    sp.pipeline.bind_group_layouts@[0].entries@,
                    sp.bind_group.entries@,
                )
            },
    {
        let format = match self.surface_format() {
            Some(f) => f,
            None => {
                return Err(
                    GeepuError::InvalidOperation("no surface available for pipeline".to_owned()),
                );
            },
        };
        let init = pod_bytes_one(uniform);
        let size = init.len() as u64;
        let uni_buf: TypedBuffer<U> = TypedBuffer {
            buffer: Buffer { size },
            len: 1,
            usage: BufferUsages::uniform().union(BufferUsages::copy_dst()),
            init: Some(init),
            _phantom: PhantomData,
        };
        let mut builder = PipelineBuilder::new(self, vs_src, fs_src, vertex_layouts);
        builder = builder.uniform(&uni_buf);
        let n = textures.len();
        let mut i: usize = 0;
        while i < n
            invariant
                n == textures@.len(),
                i <= n,
                uni_buf.buffer.size == vstd::layout::size_of::<U>(),
                builder.vs_src@ == vs_src@,
                builder.fs_src matches Some(f) && f@ == fs_src@,
                builder.uniforms@ =~= seq![uni_buf.buffer],
                builder.textures@.len() == i,
                builder.label is None,
            decreases n - i,
        {
            let tex: &Texture = *vstd::slice::slice_index_get(textures, i);
            builder = builder.texture(tex);
            i = i + 1;
        }
        let builder = match label {
            Some(l) => builder.label(l),
            None => builder,
        };
        match builder.build(format) {
            Ok(sp) => Ok(sp),
            Err(e) => {
                proof {
                    assert(false);
                }
                Err(e)
            },
        }
    }

    /// Create a compute pipeline from a uniform struct and optional
    /// storage buffers, with automatic bindings: the uniform at binding 0
    /// and the storage buffers at bindings `1 .. n+1`, all compute-only.
    /// The assembled bind group always satisfies the built layout.
    pub fn create_simple_compute<U: bytemuck::Pod>(
        &self,
        cs_src: &str,
        uniform: &U,
        storage: &[&Buffer],
        label: Option<&str>,
    ) -> (r: Result<ComputePipeline, GeepuError>)
        requires
            1 + storage@.len() <= u32::MAX,
        ensures
            r is Ok,
            r matches Ok(cp) ==> {
                &&& cp.source@ == cs_src@
                &&& cp.entry_point@ == "cs_main"@
                &&& cp.bind_group_layouts@.len() == 1
                &&& simple_compute_layout_entries(
                    storage@.len() as int,
                    cp.bind_group_layouts@[0].entries@,
                )
            },
    {
        let init = pod_bytes_one(uniform);
        let size = init.len() as u64;
        let uni_buf: TypedBuffer<U> = TypedBuffer {
            buffer: Buffer { size },
            len: 1,
            usage: BufferUsages::uniform().union(BufferUsages::copy_dst()),
            init: Some(init),
            _phantom: PhantomData,
        };
        let n = storage.len();
        let vis = ShaderStages::compute();
        let mut layout_builder = BindGroupLayoutBuilder::new().uniform_buffer(0, vis);
        let mut i: usize = 0;
        while i < n
            invariant
                n == storage@.len(),
                n + 1 <= u32::MAX,
                i <= n,
                vis == (ShaderStages { vertex: false, fragment: false, compute: true }),
                layout_builder.entries@.len() == 1 + i,
                forall|p: int|
                    0 <= p < 1 + i ==> (#[trigger] layout_builder.entries@[p])
                        == simple_compute_layout_entry(p),
            decreases n - i,
        {
            layout_builder = layout_builder.storage_buffer((i + 1) as u32, vis, false);
            i = i + 1;
        }
        let bind_layout = layout_builder.build(self, label);
        assert(simple_compute_layout_entries(n as int, bind_layout.entries@));

        let mut group_builder = BindGroupBuilder::new(&bind_layout).buffer(0, uni_buf.buffer());
        let mut i: usize = 0;
        while i < n
            invariant
                n == storage@.len(),
                n + 1 <= u32::MAX,
                i <= n,
                group_builder.layout == &bind_layout,
                group_builder.entries@.len() == 1 + i,
                forall|p: int|
                    0 <= p < 1 + i ==> (#[trigger] group_builder.entries@[p]).binding == p
                        && group_builder.entries@[p].resource is Buffer,
            decreases n - i,
        {
            let buf: &Buffer = *vstd::slice::slice_index_get(storage, i);
            group_builder = group_builder.buffer((i + 1) as u32, buf);
            i = i + 1;
        }
        proof {
            let ls = bind_layout.entries@;
            let gs = group_builder.entries@;
            assert forall|a: int, b: int| 0 <= a < b < ls.len() implies ls[a].binding
                != ls[b].binding by {
                assert(ls[a].binding == a as u32);
                assert(ls[b].binding == b as u32);
            }
            assert forall|a: int, b: int| 0 <= a < b < gs.len() implies gs[a].binding
                != gs[b].binding by {
                assert(gs[a].binding == a as u32);
                assert(gs[b].binding == b as u32);
            }
            assert forall|a: int| 0 <= a < ls.len() implies crate::pipeline::some_entry_matches(
                gs,
                #[trigger] ls[a],
            ) by {
                assert(gs[a].binding == ls[a].binding && crate::pipeline::kind_accepts(
                    ls[a].ty,
                    gs[a].resource,
                ));
            }
            assert(group_matches_layout(bind_layout.entries@, group_builder.entries@));
        }
        let _bind_group = match group_builder.build(self, label) {
            Ok(g) => g,
            Err(e) => {
                proof {
                    assert(false);
                }
                return Err(e);
            },
        };
        let mut bind_group_layouts: Vec<BindGroupLayout> = Vec::new();
        bind_group_layouts.push(bind_layout);
        match ComputePipeline::new(self, cs_src, bind_group_layouts, label) {
            Ok(cp) => Ok(cp),
            Err(e) => {
                proof {
                    assert(false);
                }
                Err(e)
            },
        }
    }
}

} // verus!

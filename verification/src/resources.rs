//! Resource management: uniform buffers, storage buffers and textures with
//! their fixed bind groups, and the name-keyed, type-checked resource
//! manager.

use vstd::prelude::*;

use core::marker::PhantomData;

use crate::buffer::{pod_bytes, pod_bytes_one, queue_plus_write_of_len, Buffer};
use crate::context::{queue_plus_texture_write, GpuContext, GpuQueue, QueuedWrite};
use crate::error::GeepuError;
use crate::pipeline::{
    group_matches_layout, BindGroup, BindGroupEntry, BindGroupLayout, BindGroupLayoutEntry,
    BindingKind, BoundResource, SamplerBindingType, ShaderStages, TextureSampleType,
    TextureViewDimension,
};
use crate::registry::NamedStore;
use crate::texture::{SamplerDescriptor, Texture, TextureFormat, TextureUsages};

verus! {

/// The single-entry layout of a standalone uniform or storage buffer:
/// binding 0, visible to every stage.
pub open spec fn spec_single_buffer_layout_entry(read_only_storage: Option<bool>)
    -> BindGroupLayoutEntry {
    BindGroupLayoutEntry {
        binding: 0u32,
        visibility: ShaderStages { vertex: true, fragment: true, compute: true },
        ty: match read_only_storage {
            None => BindingKind::UniformBuffer,
            Some(read_only) => BindingKind::StorageBuffer { read_only },
        },
    }
}

/// The single-entry bind group of a standalone buffer: the whole buffer at
/// binding 0.
pub open spec fn spec_single_buffer_group_entry(buffer: Buffer) -> BindGroupEntry {
    BindGroupEntry {
        binding: 0u32,
        resource: BoundResource::Buffer { buffer, offset: 0, size: None },
    }
}

/// Build the one-entry layout and group of a standalone buffer; they
/// always agree.
fn single_buffer_binding(buffer: Buffer, read_only_storage: Option<bool>) -> (r: (
    BindGroupLayout,
    BindGroup,
))
    ensures
        r.0.entries@ =~= seq![spec_single_buffer_layout_entry(read_only_storage)],
        r.1.entries@ =~= seq![spec_single_buffer_group_entry(buffer)],
        group_matches_layout(r.0.entries@, r.1.entries@),
{
    let mut layout_entries: Vec<BindGroupLayoutEntry> = Vec::new();
    layout_entries.push(
        BindGroupLayoutEntry {
            binding: 0,
            visibility: ShaderStages::all(),
            ty: match read_only_storage {
                None => BindingKind::UniformBuffer,
                Some(read_only) => BindingKind::StorageBuffer { read_only },
            },
        },
    );
    let mut group_entries: Vec<BindGroupEntry> = Vec::new();
    group_entries.push(
        BindGroupEntry {
            binding: 0,
            resource: BoundResource::Buffer { buffer, offset: 0, size: None },
        },
    );
    let layout = BindGroupLayout { entries: layout_entries };
    let group = BindGroup { entries: group_entries };
    proof {
        assert(layout.entries@ =~= seq![spec_single_buffer_layout_entry(read_only_storage)]);
        assert(group.entries@ =~= seq![spec_single_buffer_group_entry(buffer)]);
        assert(group.entries@[0].binding == layout.entries@[0].binding);
        assert(crate::pipeline::kind_accepts(layout.entries@[0].ty, group.entries@[0].resource));
        assert(crate::pipeline::some_entry_matches(group.entries@, layout.entries@[0]));
        assert forall|i: int| 0 <= i < layout.entries@.len() implies
            crate::pipeline::some_entry_matches(group.entries@, #[trigger] layout.entries@[i]) by {
            assert(i == 0);
        }
    }
    (layout, group)
}

/// Uniform buffer resource: one value of `T`, bound at binding 0 of its
/// own single-entry bind group.
#[derive(Debug)]
pub struct UniformBuffer<T> {
    pub buffer: Buffer,
    pub bind_group: BindGroup,
    pub bind_group_layout: BindGroupLayout,
    pub init: Vec<u8>,
    pub _phantom: PhantomData<T>,
}

impl<T> UniformBuffer<T> {
    /// Well-formedness: the buffer holds exactly one `T`, its initial
    /// contents fill it, and its bind group satisfies its layout.
    pub open spec fn wf(self) -> bool {
        &&& self.buffer.size == vstd::layout::size_of::<T>()
        &&& self.init@.len() == vstd::layout::size_of::<T>()
        &&& self.bind_group_layout.entries@ =~= seq![spec_single_buffer_layout_entry(None)]
        &&& self.bind_group.entries@ =~= seq![spec_single_buffer_group_entry(self.buffer)]
        &&& group_matches_layout(self.bind_group_layout.entries@, self.bind_group.entries@)
    }
}

impl<T: bytemuck::Pod> UniformBuffer<T> {
    /// Create a new uniform buffer holding `data`.
    pub fn new(_device: &GpuContext, data: &T, _label: Option<&str>) -> (r: Self)
        ensures
            r.wf(),
    {
        let init = pod_bytes_one(data);
        let buffer = Buffer { size: init.len() as u64 };
        let (bind_group_layout, bind_group) = single_buffer_binding(buffer, None);
        UniformBuffer { buffer, bind_group, bind_group_layout, init, _phantom: PhantomData }
    }

    /// Queue a write replacing the buffer's contents with `data`.
    pub fn update(&self, queue: &mut GpuQueue, data: &T)
        ensures
            queue_plus_write_of_len(
                *old(queue),
                *final(queue),
                0,
                vstd::layout::size_of::<T>() as int,
            ),
    {
        let bytes = pod_bytes_one(data);
        queue.writes.push(QueuedWrite::Buffer { offset: 0, bytes });
    }
}

/// Storage buffer resource: a slice of `T`, bound at binding 0 of its own
/// single-entry bind group.
#[derive(Debug)]
pub struct StorageBuffer<T> {
    pub buffer: Buffer,
    pub len: usize,
    pub read_only: bool,
    pub bind_group: BindGroup,
    pub bind_group_layout: BindGroupLayout,
    pub init: Vec<u8>,
    pub _phantom: PhantomData<T>,
}

impl<T> StorageBuffer<T> {
    /// Well-formedness: the buffer holds exactly `len` elements of `T`,
    /// its initial contents fill it, and its bind group satisfies its
    /// layout.
    pub open spec fn wf(self) -> bool {
        &&& self.buffer.size == self.len * vstd::layout::size_of::<T>()
        &&& self.init@.len() == self.len * vstd::layout::size_of::<T>()
        &&& self.bind_group_layout.entries@ =~= seq![
            spec_single_buffer_layout_entry(Some(self.read_only)),
        ]
        &&& self.bind_group.entries@ =~= seq![spec_single_buffer_group_entry(self.buffer)]
        &&& group_matches_layout(self.bind_group_layout.entries@, self.bind_group.entries@)
    }
}

impl<T: bytemuck::Pod> StorageBuffer<T> {
    /// Create a new storage buffer holding `data`, with the given shader
    /// access mode.
    pub fn new(_device: &GpuContext, data: &[T], read_only: bool, _label: Option<&str>) -> (r: Self)
        ensures
            r.wf(),
            r.len == data@.len(),
            r.read_only == read_only,
    {
        let init = pod_bytes(data);
        let buffer = Buffer { size: init.len() as u64 };
        let (bind_group_layout, bind_group) = single_buffer_binding(buffer, Some(read_only));
        StorageBuffer {
            buffer,
            len: data.len(),
            read_only,
            bind_group,
            bind_group_layout,
            init,
            _phantom: PhantomData,
        }
    }

    /// Queue a write replacing the buffer's contents with `data`.
    pub fn update(&self, queue: &mut GpuQueue, data: &[T])
        ensures
            queue_plus_write_of_len(
                *old(queue),
                *final(queue),
                0,
                (data@.len() * vstd::layout::size_of::<T>()) as int,
            ),
    {
        let bytes = pod_bytes(data);
        queue.writes.push(QueuedWrite::Buffer { offset: 0, bytes });
    }
}

/// The two-entry layout of a sampled texture: the texture at binding 0 and
/// its sampler at binding 1, fragment-only.
pub open spec fn spec_texture_layout_entries() -> Seq<BindGroupLayoutEntry> {
    seq![
        BindGroupLayoutEntry {
            binding: 0u32,
            visibility: ShaderStages { vertex: false, fragment: true, compute: false },
            ty: BindingKind::Texture {
                sample_type: TextureSampleType::Float { filterable: true },
                view_dimension: TextureViewDimension::D2,
                multisampled: false,
            },
        },
        BindGroupLayoutEntry {
            binding: 1u32,
            visibility: ShaderStages { vertex: false, fragment: true, compute: false },
            ty: BindingKind::Sampler(SamplerBindingType::Filtering),
        },
    ]
}

/// The two-entry bind group of a sampled texture.
pub open spec fn spec_texture_group_entries() -> Seq<BindGroupEntry> {
    seq![
        BindGroupEntry { binding: 0u32, resource: BoundResource::TextureView },
        BindGroupEntry { binding: 1u32, resource: BoundResource::Sampler },
    ]
}

/// Build the fixed texture-and-sampler layout and group; they always
/// agree.
fn texture_binding() -> (r: (BindGroupLayout, BindGroup))
    ensures
        r.0.entries@ =~= spec_texture_layout_entries(),
        r.1.entries@ =~= spec_texture_group_entries(),
        group_matches_layout(r.0.entries@, r.1.entries@),
{
    let mut layout_entries: Vec<BindGroupLayoutEntry> = Vec::new();
    layout_entries.push(
        BindGroupLayoutEntry {
            binding: 0,
            visibility: ShaderStages::fragment(),
            ty: BindingKind::Texture {
                sample_type: TextureSampleType::Float { filterable: true },
                view_dimension: TextureViewDimension::D2,
                multisampled: false,
            },
        },
    );
    layout_entries.push(
        BindGroupLayoutEntry {
            binding: 1,
            visibility: ShaderStages::fragment(),
            ty: BindingKind::Sampler(SamplerBindingType::Filtering),
        },
    );
    let mut group_entries: Vec<BindGroupEntry> = Vec::new();
    group_entries.push(BindGroupEntry { binding: 0, resource: BoundResource::TextureView });
    group_entries.push(BindGroupEntry { binding: 1, resource: BoundResource::Sampler });
    let layout = BindGroupLayout { entries: layout_entries };
    let group = BindGroup { entries: group_entries };
    proof {
        assert(layout.entries@ =~= spec_texture_layout_entries());
        assert(group.entries@ =~= spec_texture_group_entries());
        assert(group.entries@[0].binding == layout.entries@[0].binding);
        assert(crate::pipeline::kind_accepts(layout.entries@[0].ty, group.entries@[0].resource));
        assert(crate::pipeline::some_entry_matches(group.entries@, layout.entries@[0]));
        assert(group.entries@[1].binding == layout.entries@[1].binding);
        assert(crate::pipeline::kind_accepts(layout.entries@[1].ty, group.entries@[1].resource));
        assert(crate::pipeline::some_entry_matches(group.entries@, layout.entries@[1]));
        assert forall|i: int| 0 <= i < layout.entries@.len() implies
            crate::pipeline::some_entry_matches(group.entries@, #[trigger] layout.entries@[i]) by {
            assert(i == 0 || i == 1);
        }
    }
    (layout, group)
}

/// Texture resource: a texture with its sampler and its fixed two-entry
/// bind group.
#[derive(Debug)]
pub struct TextureResource {
    pub texture: Texture,
    pub bind_group: BindGroup,
    pub bind_group_layout: BindGroupLayout,
}

impl TextureResource {
    /// Well-formedness: the bind group satisfies the fixed texture layout.
    pub open spec fn wf(self) -> bool {
        &&& self.bind_group_layout.entries@ =~= spec_texture_layout_entries()
        &&& self.bind_group.entries@ =~= spec_texture_group_entries()
        &&& group_matches_layout(self.bind_group_layout.entries@, self.bind_group.entries@)
    }

    /// Create a texture from tightly packed RGBA8 pixel data: exactly
    /// `4 * width * height` bytes, queued as a texture write.
    pub fn from_rgba8(
        _device: &GpuContext,
        queue: &mut GpuQueue,
        bytes: &[u8],
        width: u32,
        height: u32,
        _label: Option<&str>,
    ) -> (r: Result<Self, GeepuError>)
        ensures
            r is Ok <==> bytes@.len() == 4 * width * height,
            r matches Err(e) ==> e matches GeepuError::SizeMismatch(_) && *final(queue) == *old(
                queue,
            ),
            r matches Ok(t) ==> {
                &&& t.wf()
                &&& t.texture.width == width
                &&& t.texture.height == height
                &&& t.texture.format == TextureFormat::Rgba8UnormSrgb
                &&& t.texture.usage == (TextureUsages {
                    copy_src: false,
                    copy_dst: true,
                    texture_binding: true,
                    render_attachment: false,
                })
                &&& t.texture.sampler == SamplerDescriptor::spec_default_sampler()
                &&& t.texture.mip_level_count == 1
                &&& t.texture.sample_count == 1
                &&& queue_plus_texture_write(
                    *old(queue),
                    *final(queue),
                    width,
                    height,
                    4 * width,
                    bytes@,
                )
            },
    {
        let wu: u128 = width as u128;
        let hu: u128 = height as u128;
        proof {
            assert(4 * wu < 0x4_0000_0000u128 && 4 * wu * hu < 0x4_0000_0000_0000_0000_0u128)
                by (nonlinear_arith)
                requires
                    wu < 0x1_0000_0000,
                    hu < 0x1_0000_0000,
            ;
        }
        let needed: u128 = 4 * wu * hu;
        if (bytes.len() as u128) != needed {
            return Err(
                GeepuError::SizeMismatch(
                    "pixel data length does not match 4 * width * height".to_owned(),
                ),
            );
        }
        let write = QueuedWrite::Texture {
            width,
            height,
            bytes_per_row: 4u64 * (width as u64),
            rows_per_image: height,
            bytes: vstd::slice::slice_to_vec(bytes),
        };
        queue.writes.push(write);
        let (bind_group_layout, bind_group) = texture_binding();
        Ok(
            TextureResource {
                texture: Texture {
                    width,
                    height,
                    format: TextureFormat::Rgba8UnormSrgb,
                    usage: TextureUsages::binding_and_copy_dst(),
                    mip_level_count: 1,
                    sample_count: 1,
                    sampler: SamplerDescriptor::default_sampler(),
                },
                bind_group,
                bind_group_layout,
            },
        )
    }

    /// Create a texture resource from an image: the image is converted to
    /// RGBA8 and its pixels are queued as a texture write whose row layout
    /// covers the texture exactly.
    pub fn from_image(
        device: &GpuContext,
        queue: &mut GpuQueue,
        img: &image::DynamicImage,
        label: Option<&str>,
    ) -> (r: Result<Self, GeepuError>)
        ensures
            r is Ok,
            r matches Ok(t) ==> {
                &&& t.wf()
                &&& t.texture.width == image_width(*img)
                &&& t.texture.height == image_height(*img)
                &&& t.texture.format == TextureFormat::Rgba8UnormSrgb
                &&& t.texture.usage == (TextureUsages {
                    copy_src: false,
                    copy_dst: true,
                    texture_binding: true,
                    render_attachment: false,
                })
                &&& t.texture.sampler == SamplerDescriptor::spec_default_sampler()
                &&& t.texture.mip_level_count == 1
                &&& t.texture.sample_count == 1
                &&& final(queue).submitted == old(queue).submitted
                &&& final(queue).writes@.len() == old(queue).writes@.len() + 1
                &&& final(queue).writes@.subrange(0, old(queue).writes@.len() as int) =~= old(
                    queue,
                ).writes@
                &&& final(queue).writes@.last() matches QueuedWrite::Texture {
                    width: w,
                    height: h,
                    bytes_per_row: bpr,
                    rows_per_image: rpi,
                    bytes: b,
                } && w == image_width(*img) && h == image_height(*img) && bpr == 4 * image_width(
                    *img,
                ) && rpi == image_height(*img) && b@ == image_rgba8(*img).take(
                    4 * (image_width(*img) as int) * (image_height(*img) as int),
                )
            },
    {
        let (mut bytes, width, height) = rgba8_of_image(img);
        let wu: u128 = width as u128;
        let hu: u128 = height as u128;
        proof {
            assert(4 * wu < 0x4_0000_0000u128 && 4 * wu * hu < 0x4_0000_0000_0000_0000_0u128)
                by (nonlinear_arith)
                requires
                    wu < 0x1_0000_0000,
                    hu < 0x1_0000_0000,
            ;
        }
        let needed: usize = (4 * wu * hu) as usize;
        bytes.truncate(needed);
        match Self::from_rgba8(device, queue, bytes.as_slice(), width, height, label) {
            Ok(t) => Ok(t),
            Err(e) => {
                proof {
                    assert(false);
                }
                Err(e)
            },
        }
    }

    /// Create an empty texture resource for use as a render target.
    pub fn create_render_target(
        _device: &GpuContext,
        width: u32,
        height: u32,
        format: TextureFormat,
        _label: Option<&str>,
    ) -> (r: Self)
        ensures
            r.wf(),
            r.texture.width == width,
            r.texture.height == height,
            r.texture.format == format,
            r.texture.usage == (TextureUsages {
                copy_src: true,
                copy_dst: false,
                texture_binding: true,
                render_attachment: true,
            }),
    {
        let (bind_group_layout, bind_group) = texture_binding();
        TextureResource {
            texture: Texture {
                width,
                height,
                format,
                usage: TextureUsages {
                    copy_src: true,
                    copy_dst: false,
                    texture_binding: true,
                    render_attachment: true,
                },
                mip_level_count: 1,
                sample_count: 1,
                sampler: SamplerDescriptor {
                    address_mode_u: crate::texture::AddressMode::ClampToEdge,
                    address_mode_v: crate::texture::AddressMode::ClampToEdge,
                    address_mode_w: crate::texture::AddressMode::ClampToEdge,
                    mag_filter: crate::texture::FilterMode::Linear,
                    min_filter: crate::texture::FilterMode::Linear,
                    mipmap_filter: crate::texture::FilterMode::Nearest,
                    compare: None,
                },
            },
            bind_group,
            bind_group_layout,
        }
    }
}

/// A type declaration for the image crate's dynamic image, carried through
/// opaquely.
#[verifier::external_type_specification]
#[verifier::external_body]
pub struct ExDynamicImage(image::DynamicImage);

/// The width of an image, in pixels.
pub uninterp spec fn image_width(img: image::DynamicImage) -> u32;

/// The height of an image, in pixels.
pub uninterp spec fn image_height(img: image::DynamicImage) -> u32;

/// The buffer `to_rgba8` converts an image into: a function of the image
/// alone.
pub uninterp spec fn image_rgba8(img: image::DynamicImage) -> Seq<u8>;

/// Relies on `image::DynamicImage::to_rgba8` and
/// `image::ImageBuffer::{dimensions, into_raw}`: the conversion and the
/// dimensions are functions of the image alone, and the yielded buffer
/// holds at least `4 * width * height` bytes (an image buffer's container
/// is checked to be at least that long at construction, so the product
/// also fits in `usize`).
#[verifier::external_body]
fn rgba8_of_image(img: &image::DynamicImage) -> (r: (Vec<u8>, u32, u32))
    ensures
        r.1 == image_width(*img),
        r.2 == image_height(*img),
        r.0@ == image_rgba8(*img),
        4 * (r.1 as int) * (r.2 as int) <= usize::MAX,
        r.0@.len() >= 4 * (r.1 as int) * (r.2 as int),
{
    let rgba = img.to_rgba8();
    let (w, h) = rgba.dimensions();
    (rgba.into_raw(), w, h)
}

/// A type declaration for the standard library's type identifier, carried
/// through opaquely. Two values are equal exactly when they identify the
/// same type.
#[verifier::external_type_specification]
#[verifier::external_body]
pub struct ExTypeId(core::any::TypeId);

/// Relies on `<core::any::TypeId as PartialEq>::eq`: the derived equality
/// compares the identifiers' underlying data, which is all an identifier
/// holds.
pub assume_specification[ <core::any::TypeId as PartialEq>::eq ](
    a: &core::any::TypeId,
    b: &core::any::TypeId,
) -> (r: bool)
    ensures
        r == (a == b),
;

/// Relies on `core::any::TypeId::of`: the identifier is a function of the
/// type alone, and identifiers of distinct types differ. The value itself
/// is build-dependent, so no clause can pin it.
#[verifier::external_body]
fn type_id_of<T: 'static>() -> (r: core::any::TypeId) {
    core::any::TypeId::of::<T>()
}

/// A type-erased buffer resource as the resource manager stores it: the
/// element type is reduced to its identifier and size, which retrieval
/// checks.
#[derive(Debug)]
pub struct StoredBuffer {
    pub type_tag: core::any::TypeId,
    pub elem_size: usize,
    pub len: usize,
    pub read_only: bool,
    pub buffer: Buffer,
    pub bind_group: BindGroup,
    pub bind_group_layout: BindGroupLayout,
    pub init: Vec<u8>,
}

/// Resource manager: independent name-keyed registries of uniform buffers,
/// storage buffers and textures. A name collision across registries is
/// permitted; within one registry the last write wins.
#[derive(Debug)]
pub struct ResourceManager {
    pub uniforms: NamedStore<StoredBuffer>,
    pub storage_buffers: NamedStore<StoredBuffer>,
    pub textures: NamedStore<TextureResource>,
}

impl ResourceManager {
    /// All three registries are unambiguous.
    pub open spec fn wf(&self) -> bool {
        &&& self.uniforms.wf()
        &&& self.storage_buffers.wf()
        &&& self.textures.wf()
    }

    /// An empty manager.
    pub fn new() -> (r: Self)
        ensures
            r.wf(),
            r.uniforms@ =~= Map::<Seq<char>, StoredBuffer>::empty(),
            r.storage_buffers@ =~= Map::<Seq<char>, StoredBuffer>::empty(),
            r.textures@ =~= Map::<Seq<char>, TextureResource>::empty(),
    {
        ResourceManager {
            uniforms: NamedStore::new(),
            storage_buffers: NamedStore::new(),
            textures: NamedStore::new(),
        }
    }

    /// Store a uniform buffer under `name`, type-erased to its element
    /// type's identifier and size.
    pub fn add_uniform<T: 'static>(&mut self, name: &str, uniform: UniformBuffer<T>)
        requires
            old(self).wf(),
        ensures
            final(self).wf(),
            final(self).uniforms@.contains_key(name@),
            final(self).uniforms@[name@].elem_size == vstd::layout::size_of::<T>(),
            final(self).uniforms@[name@].len == 1,
            !final(self).uniforms@[name@].read_only,
            final(self).uniforms@[name@].buffer == uniform.buffer,
            final(self).uniforms@[name@].bind_group.entries@ == uniform.bind_group.entries@,
            final(self).uniforms@[name@].bind_group_layout.entries@
                == uniform.bind_group_layout.entries@,
            final(self).uniforms@[name@].init@ == uniform.init@,
            final(self).uniforms@ =~= old(self).uniforms@.insert(
                name@,
                final(self).uniforms@[name@],
            ),
            final(self).storage_buffers == old(self).storage_buffers,
            final(self).textures == old(self).textures,
    {
        let stored = StoredBuffer {
            type_tag: type_id_of::<T>(),
            elem_size: core::mem::size_of::<T>(),
            len: 1,
            read_only: false,
            buffer: uniform.buffer,
            bind_group: uniform.bind_group,
            bind_group_layout: uniform.bind_group_layout,
            init: uniform.init,
        };
        self.uniforms.insert(name, stored);
    }

    /// Look up the uniform buffer stored under `name` against an element
    /// type's identifier and size: succeeds exactly when an entry exists
    /// and was stored with that identifier and size; a missing name is the
    /// not-found error and a differing identifier or size the
    /// type-mismatch error.
    pub fn get_uniform_tagged(
        &self,
        name: &str,
        type_tag: core::any::TypeId,
        elem_size: usize,
    ) -> (r: Result<&StoredBuffer, GeepuError>)
        requires
            self.wf(),
        ensures
            match r {
                Ok(b) => self.uniforms@.contains_key(name@) && *b == self.uniforms@[name@]
                    && b.type_tag == type_tag && b.elem_size == elem_size,
                Err(e) => match e {
                    GeepuError::ResourceNotFound(_) => !self.uniforms@.contains_key(name@),
                    GeepuError::TypeMismatch(_) => self.uniforms@.contains_key(name@) && (
                    self.uniforms@[name@].type_tag != type_tag || self.uniforms@[name@].elem_size
                        != elem_size),
                    _ => false,
                },
            },
    {
        match self.uniforms.get(name) {
            Some(b) => {
                if b.type_tag == type_tag && b.elem_size == elem_size {
                    Ok(b)
                } else {
                    Err(
                        GeepuError::TypeMismatch(
                            "stored uniform has a different element type".to_owned(),
                        ),
                    )
                }
            },
            None => Err(GeepuError::ResourceNotFound(name.to_owned())),
        }
    }

    /// Retrieve the uniform buffer stored under `name`, checked against
    /// the element type's identifier and size: a missing name is a
    /// not-found error, and an entry stored with a different element type
    /// — even one of the same size — is a type-mismatch error, never a
    /// reinterpretation. The identifier a type yields is build-dependent
    /// and cannot be named in a contract, so success is promised for no
    /// retrieval here; `get_uniform_tagged` carries the exact condition
    /// over the identifier it is given.
    pub fn get_uniform<T: 'static>(&self, name: &str) -> (r: Result<&StoredBuffer, GeepuError>)
        requires
            self.wf(),
        ensures
            match r {
                Ok(b) => self.uniforms@.contains_key(name@) && *b == self.uniforms@[name@]
                    && b.elem_size == vstd::layout::size_of::<T>(),
                Err(e) => match e {
                    GeepuError::ResourceNotFound(_) => !self.uniforms@.contains_key(name@),
                    GeepuError::TypeMismatch(_) => self.uniforms@.contains_key(name@),
                    _ => false,
                },
            },
    {
        self.get_uniform_tagged(name, type_id_of::<T>(), core::mem::size_of::<T>())
    }

    /// Store a storage buffer under `name`, type-erased to its element
    /// type's identifier and size.
    pub fn add_storage_buffer<T: 'static>(&mut self, name: &str, buffer: StorageBuffer<T>)
        requires
            old(self).wf(),
        ensures
            final(self).wf(),
            final(self).storage_buffers@.contains_key(name@),
            final(self).storage_buffers@[name@].elem_size == vstd::layout::size_of::<T>(),
            final(self).storage_buffers@[name@].len == buffer.len,
            final(self).storage_buffers@[name@].read_only == buffer.read_only,
            final(self).storage_buffers@[name@].buffer == buffer.buffer,
            final(self).storage_buffers@[name@].bind_group.entries@
                == buffer.bind_group.entries@,
            final(self).storage_buffers@[name@].bind_group_layout.entries@
                == buffer.bind_group_layout.entries@,
            final(self).storage_buffers@[name@].init@ == buffer.init@,
            final(self).storage_buffers@ =~= old(self).storage_buffers@.insert(
                name@,
                final(self).storage_buffers@[name@],
            ),
            final(self).uniforms == old(self).uniforms,
            final(self).textures == old(self).textures,
    {
        let stored = StoredBuffer {
            type_tag: type_id_of::<T>(),
            elem_size: core::mem::size_of::<T>(),
            len: buffer.len,
            read_only: buffer.read_only,
            buffer: buffer.buffer,
            bind_group: buffer.bind_group,
            bind_group_layout: buffer.bind_group_layout,
            init: buffer.init,
        };
        self.storage_buffers.insert(name, stored);
    }

    /// Look up the storage buffer stored under `name` against an element
    /// type's identifier and size: succeeds exactly when an entry exists
    /// and was stored with that identifier and size.
    pub fn get_storage_buffer_tagged(
        &self,
        name: &str,
        type_tag: core::any::TypeId,
        elem_size: usize,
    ) -> (r: Result<&StoredBuffer, GeepuError>)
        requires
            self.wf(),
        ensures
            match r {
                Ok(b) => self.storage_buffers@.contains_key(name@) && *b
                    == self.storage_buffers@[name@] && b.type_tag == type_tag && b.elem_size
                    == elem_size,
                Err(e) => match e {
                    GeepuError::ResourceNotFound(_) => !self.storage_buffers@.contains_key(name@),
                    GeepuError::TypeMismatch(_) => self.storage_buffers@.contains_key(name@) && (
                    self.storage_buffers@[name@].type_tag != type_tag
                        || self.storage_buffers@[name@].elem_size != elem_size),
                    _ => false,
                },
            },
    {
        match self.storage_buffers.get(name) {
            Some(b) => {
                if b.type_tag == type_tag && b.elem_size == elem_size {
                    Ok(b)
                } else {
                    Err(
                        GeepuError::TypeMismatch(
                            "stored storage buffer has a different element type".to_owned(),
                        ),
                    )
                }
            },
            None => Err(GeepuError::ResourceNotFound(name.to_owned())),
        }
    }

    /// Retrieve the storage buffer stored under `name`, checked against
    /// the element type's identifier and size: a missing name is a
    /// not-found error, and an entry stored with a different element type
    /// — even one of the same size — is a type-mismatch error, never a
    /// reinterpretation. As for `get_uniform`, the exact success condition
    /// over the identifier lives in `get_storage_buffer_tagged`.
    pub fn get_storage_buffer<T: 'static>(&self, name: &str) -> (r: Result<
        &StoredBuffer,
        GeepuError,
    >)
        requires
            self.wf(),
        ensures
            match r {
                Ok(b) => self.storage_buffers@.contains_key(name@) && *b
                    == self.storage_buffers@[name@] && b.elem_size == vstd::layout::size_of::<T>(),
                Err(e) => match e {
                    GeepuError::ResourceNotFound(_) => !self.storage_buffers@.contains_key(name@),
                    GeepuError::TypeMismatch(_) => self.storage_buffers@.contains_key(name@),
                    _ => false,
                },
            },
    {
        self.get_storage_buffer_tagged(name, type_id_of::<T>(), core::mem::size_of::<T>())
    }

    /// Store a texture under `name`.
    pub fn add_texture(&mut self, name: &str, texture: TextureResource)
        requires
            old(self).wf(),
        ensures
            final(self).wf(),
            final(self).textures@.contains_key(name@),
            final(self).textures@[name@] == texture,
            final(self).textures@ =~= old(self).textures@.insert(name@, texture),
            final(self).uniforms == old(self).uniforms,
            final(self).storage_buffers == old(self).storage_buffers,
    {
        self.textures.insert(name, texture);
    }

    /// Retrieve the texture stored under `name`: succeeds exactly when one
    /// was stored.
    pub fn get_texture(&self, name: &str) -> (r: Result<&TextureResource, GeepuError>)
        requires
            self.wf(),
        ensures
            match r {
                Ok(t) => self.textures@.contains_key(name@) && *t == self.textures@[name@],
                Err(e) => !self.textures@.contains_key(name@) && e matches
                    GeepuError::ResourceNotFound(_),
            },
    {
        match self.textures.get(name) {
            Some(t) => Ok(t),
            None => Err(GeepuError::ResourceNotFound(name.to_owned())),
        }
    }
}

} // verus!

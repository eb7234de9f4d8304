//! Texture abstraction: formats, usage flags, samplers and the `Texture`
//! model with validated uploads.

use vstd::prelude::*;

use crate::context::{queue_plus_texture_write, GpuContext, QueuedWrite};
use crate::error::GeepuError;

verus! {

/// Pixel formats the library knows about.
#[derive(Debug, Clone, Copy, PartialEq, Eq, Structural)]
pub enum TextureFormat {
    R8Unorm,
    Rg8Unorm,
    Rgba8Unorm,
    Rgba8UnormSrgb,
    Bgra8Unorm,
    Bgra8UnormSrgb,
    Rgb9e5Ufloat,
    Depth32Float,
}

impl TextureFormat {
    /// Bytes per pixel for formats that support direct byte upload; `None`
    /// for any other format.
    pub open spec fn spec_bytes_per_pixel(self) -> Option<u32> {
        match self {
            TextureFormat::R8Unorm => Some(1u32),
            TextureFormat::Rg8Unorm => Some(2u32),
            TextureFormat::Rgba8Unorm => Some(4u32),
            TextureFormat::Rgba8UnormSrgb => Some(4u32),
            TextureFormat::Bgra8Unorm => Some(4u32),
            TextureFormat::Bgra8UnormSrgb => Some(4u32),
            TextureFormat::Rgb9e5Ufloat => Some(4u32),
            TextureFormat::Depth32Float => None,
        }
    }

    /// Bytes per pixel for the formats that support direct byte upload.
    pub fn bytes_per_pixel(self) -> (r: Option<u32>)
        ensures
            r == self.spec_bytes_per_pixel(),
    {
        match self {
            TextureFormat::R8Unorm => Some(1u32),
            TextureFormat::Rg8Unorm => Some(2u32),
            TextureFormat::Rgba8Unorm => Some(4u32),
            TextureFormat::Rgba8UnormSrgb => Some(4u32),
            TextureFormat::Bgra8Unorm => Some(4u32),
            TextureFormat::Bgra8UnormSrgb => Some(4u32),
            TextureFormat::Rgb9e5Ufloat => Some(4u32),
            TextureFormat::Depth32Float => None,
        }
    }

    /// Whether the format uses the sRGB transfer function.
    pub open spec fn spec_is_srgb(self) -> bool {
        self == TextureFormat::Rgba8UnormSrgb || self == TextureFormat::Bgra8UnormSrgb
    }

    /// Whether the format uses the sRGB transfer function.
    pub fn is_srgb(self) -> (r: bool)
        ensures
            r == self.spec_is_srgb(),
    {
        match self {
            TextureFormat::Rgba8UnormSrgb => true,
            TextureFormat::Bgra8UnormSrgb => true,
            _ => false,
        }
    }
}

/// Allowed uses of a texture.
#[derive(Debug, Clone, Copy, PartialEq, Eq, Structural)]
pub struct TextureUsages {
    pub copy_src: bool,
    pub copy_dst: bool,
    pub texture_binding: bool,
    pub render_attachment: bool,
}

impl TextureUsages {
    /// A sampled texture that can receive uploads.
    pub fn binding_and_copy_dst() -> (r: Self)
        ensures
            r == (TextureUsages {
                copy_src: false,
                copy_dst: true,
                texture_binding: true,
                render_attachment: false,
            }),
    {
        TextureUsages {
            copy_src: false,
            copy_dst: true,
            texture_binding: true,
            render_attachment: false,
        }
    }

    /// A render target that can also be sampled.
    pub fn render_target() -> (r: Self)
        ensures
            r == (TextureUsages {
                copy_src: false,
                copy_dst: false,
                texture_binding: true,
                render_attachment: true,
            }),
    {
        TextureUsages {
            copy_src: false,
            copy_dst: false,
            texture_binding: true,
            render_attachment: true,
        }
    }
}

/// How sampling coordinates outside the texture are handled.
#[derive(Debug, Clone, Copy, PartialEq, Eq, Structural)]
pub enum AddressMode {
    ClampToEdge,
    Repeat,
    MirrorRepeat,
}

/// Texel interpolation mode.
#[derive(Debug, Clone, Copy, PartialEq, Eq, Structural)]
pub enum FilterMode {
    Nearest,
    Linear,
}

/// Depth comparison function for comparison samplers.
#[derive(Debug, Clone, Copy, PartialEq, Eq, Structural)]
pub enum CompareFunction {
    Never,
    Less,
    Equal,
    LessEqual,
    Greater,
    NotEqual,
    GreaterEqual,
    Always,
}

/// Sampler configuration.
#[derive(Debug, Clone, Copy, PartialEq, Eq, Structural)]
pub struct SamplerDescriptor {
    pub address_mode_u: AddressMode,
    pub address_mode_v: AddressMode,
    pub address_mode_w: AddressMode,
    pub mag_filter: FilterMode,
    pub min_filter: FilterMode,
    pub mipmap_filter: FilterMode,
    pub compare: Option<CompareFunction>,
}

impl SamplerDescriptor {
    /// The sampler the texture constructors attach by default: clamped
    /// addressing, linear magnification, nearest minification.
    pub open spec fn spec_default_sampler() -> SamplerDescriptor {
        SamplerDescriptor {
            address_mode_u: AddressMode::ClampToEdge,
            address_mode_v: AddressMode::ClampToEdge,
            address_mode_w: AddressMode::ClampToEdge,
            mag_filter: FilterMode::Linear,
            min_filter: FilterMode::Nearest,
            mipmap_filter: FilterMode::Nearest,
            compare: None,
        }
    }

    /// The sampler the texture constructors attach by default.
    pub fn default_sampler() -> (r: Self)
        ensures
            r == SamplerDescriptor::spec_default_sampler(),
    {
        SamplerDescriptor {
            address_mode_u: AddressMode::ClampToEdge,
            address_mode_v: AddressMode::ClampToEdge,
            address_mode_w: AddressMode::ClampToEdge,
            mag_filter: FilterMode::Linear,
            min_filter: FilterMode::Nearest,
            mipmap_filter: FilterMode::Nearest,
            compare: None,
        }
    }

    /// The comparison sampler depth textures are created with.
    pub open spec fn spec_depth_sampler() -> SamplerDescriptor {
        SamplerDescriptor {
            address_mode_u: AddressMode::ClampToEdge,
            address_mode_v: AddressMode::ClampToEdge,
            address_mode_w: AddressMode::ClampToEdge,
            mag_filter: FilterMode::Linear,
            min_filter: FilterMode::Linear,
            mipmap_filter: FilterMode::Nearest,
            compare: Some(CompareFunction::LessEqual),
        }
    }

    /// The comparison sampler depth textures are created with.
    pub fn depth_sampler() -> (r: Self)
        ensures
            r == SamplerDescriptor::spec_depth_sampler(),
    {
        SamplerDescriptor {
            address_mode_u: AddressMode::ClampToEdge,
            address_mode_v: AddressMode::ClampToEdge,
            address_mode_w: AddressMode::ClampToEdge,
            mag_filter: FilterMode::Linear,
            min_filter: FilterMode::Linear,
            mipmap_filter: FilterMode::Nearest,
            compare: Some(CompareFunction::LessEqual),
        }
    }
}

/// The tightly packed byte width of one row of `width` pixels.
fn row_bytes(bpp: u32, width: u32) -> (r: u64)
    ensures
        r == bpp * width,
{
    proof {
        assert((bpp as int) * (width as int) <= 0xffff_ffff_ffff_ffff) by (nonlinear_arith)
            requires
                bpp <= 0xffff_ffff,
                width <= 0xffff_ffff,
        ;
    }
    (bpp as u64) * (width as u64)
}

/// A texture together with its view and sampler configuration.
#[derive(Debug, Clone, Copy, PartialEq, Eq, Structural)]
pub struct Texture {
    pub width: u32,
    pub height: u32,
    pub format: TextureFormat,
    pub usage: TextureUsages,
    pub mip_level_count: u32,
    pub sample_count: u32,
    pub sampler: SamplerDescriptor,
}

impl Texture {
    /// Create a new texture from raw pixel data. The data length must be
    /// exactly `width * height * bytes_per_pixel(format)`; the bytes are
    /// queued as a texture write on the context's queue.
    pub fn from_bytes(
        context: &mut GpuContext,
        bytes: &[u8],
        width: u32,
        height: u32,
        format: TextureFormat,
        label: Option<&str>,
    ) -> (r: Result<Texture, GeepuError>)
        ensures
            match format.spec_bytes_per_pixel() {
                None => {
                    &&& r matches Err(GeepuError::UnsupportedFormat(_))
                    &&& *final(context) == *old(context)
                },
                Some(bpp) => {
                    if bytes@.len() == width * height * bpp {
                        &&& r == Ok::<Texture, GeepuError>(Texture {
                            width,
                            height,
                            format,
                            usage: TextureUsages {
                                copy_src: false,
                                copy_dst: true,
                                texture_binding: true,
                                render_attachment: false,
                            },
                            mip_level_count: 1,
                            sample_count: 1,
                            sampler: SamplerDescriptor::spec_default_sampler(),
                        })
                        &&& queue_plus_texture_write(
                            old(context).queue,
                            final(context).queue,
                            width,
                            height,
                            bpp * width,
                            bytes@,
                        )
                        &&& final(context).surface_config == old(context).surface_config
                        &&& final(context).features == old(context).features
                    } else {
                        &&& r matches Err(GeepuError::SizeMismatch(_))
                        &&& *final(context) == *old(context)
                    }
                },
            },
    {
        let bpp = match format.bytes_per_pixel() {
            Some(b) => b,
            None => {
                return Err(
                    GeepuError::UnsupportedFormat(
                        "texture format has no direct byte-upload width".to_owned(),
                    ),
                );
            },
        };
        let wu: u128 = width as u128;
        let hu: u128 = height as u128;
        let bu: u128 = bpp as u128;
        proof {
            assert(wu * hu < 0x1_0000_0000_0000_0000u128 && wu * hu * bu
                < 0x1_0000_0000_0000_0000_0000_0000u128) by (nonlinear_arith)
                requires
                    wu < 0x1_0000_0000,
                    hu < 0x1_0000_0000,
                    bu < 0x1_0000_0000,
            ;
        }
        let needed: u128 = wu * hu * bu;
        if (bytes.len() as u128) != needed {
            return Err(
                GeepuError::SizeMismatch(
                    "pixel data length does not match width * height * bytes per pixel".to_owned(),
                ),
            );
        }
        let write = QueuedWrite::Texture {
            width,
            height,
            bytes_per_row: row_bytes(bpp, width),
            rows_per_image: height,
            bytes: vstd::slice::slice_to_vec(bytes),
        };
        context.queue.writes.push(write);
        Ok(
            Texture {
                width,
                height,
                format,
                usage: TextureUsages::binding_and_copy_dst(),
                mip_level_count: 1,
                sample_count: 1,
                sampler: SamplerDescriptor::default_sampler(),
            },
        )
    }

    /// Create an empty texture with the given usage.
    pub fn create_empty(
        _context: &GpuContext,
        width: u32,
        height: u32,
        format: TextureFormat,
        usage: TextureUsages,
        label: Option<&str>,
    ) -> (r: Result<Texture, GeepuError>)
        ensures
            r == Ok::<Texture, GeepuError>(Texture {
                width,
                height,
                format,
                usage,
                mip_level_count: 1,
                sample_count: 1,
                sampler: SamplerDescriptor::spec_default_sampler(),
            }),
    {
        Ok(
            Texture {
                width,
                height,
                format,
                usage,
                mip_level_count: 1,
                sample_count: 1,
                sampler: SamplerDescriptor::default_sampler(),
            },
        )
    }

    /// Create a depth texture, with the `Depth32Float` format and a
    /// comparison sampler.
    pub fn create_depth_texture(
        _context: &GpuContext,
        width: u32,
        height: u32,
        label: Option<&str>,
    ) -> (r: Result<Texture, GeepuError>)
        ensures
            r == Ok::<Texture, GeepuError>(Texture {
                width,
                height,
                format: TextureFormat::Depth32Float,
                usage: TextureUsages {
                    copy_src: false,
                    copy_dst: false,
                    texture_binding: true,
                    render_attachment: true,
                },
                mip_level_count: 1,
                sample_count: 1,
                sampler: SamplerDescriptor::spec_depth_sampler(),
            }),
    {
        Ok(
            Texture {
                width,
                height,
                format: TextureFormat::Depth32Float,
                usage: TextureUsages::render_target(),
                mip_level_count: 1,
                sample_count: 1,
                sampler: SamplerDescriptor::depth_sampler(),
            },
        )
    }

    /// Create a render target texture that can also be sampled.
    pub fn create_render_target(
        context: &GpuContext,
        width: u32,
        height: u32,
        format: TextureFormat,
        label: Option<&str>,
    ) -> (r: Result<Texture, GeepuError>)
        ensures
            r == Ok::<Texture, GeepuError>(Texture {
                width,
                height,
                format,
                usage: TextureUsages {
                    copy_src: false,
                    copy_dst: false,
                    texture_binding: true,
                    render_attachment: true,
                },
                mip_level_count: 1,
                sample_count: 1,
                sampler: SamplerDescriptor::spec_default_sampler(),
            }),
    {
        Self::create_empty(context, width, height, format, TextureUsages::render_target(), label)
    }

    /// Size of the texture.
    pub fn size(&self) -> (r: (u32, u32))
        ensures
            r == (self.width, self.height),
    {
        (self.width, self.height)
    }

    /// Format of the texture.
    pub fn format(&self) -> (r: TextureFormat)
        ensures
            r == self.format,
    {
        self.format
    }

    /// Write raw pixel data to the texture. Fails with the
    /// unsupported-format error for any pixel format without a
    /// bytes-per-pixel entry; otherwise queues a texture write whose row
    /// layout is derived from `width` and the format's pixel size.
    pub fn write_data(
        &self,
        context: &mut GpuContext,
        data: &[u8],
        width: u32,
        height: u32,
    ) -> (r: Result<(), GeepuError>)
        ensures
            match self.format.spec_bytes_per_pixel() {
                None => {
                    &&& r matches Err(GeepuError::UnsupportedFormat(_))
                    &&& *final(context) == *old(context)
                },
                Some(bpp) => {
                    &&& r is Ok
                    &&& queue_plus_texture_write(
                        old(context).queue,
                        final(context).queue,
                        width,
                        height,
                        bpp * width,
                        data@,
                    )
                    &&& final(context).surface_config == old(context).surface_config
                    &&& final(context).features == old(context).features
                },
            },
    {
        let bpp = match self.format.bytes_per_pixel() {
            Some(b) => b,
            None => {
                return Err(
                    GeepuError::UnsupportedFormat(
                        "unsupported texture format for write_data".to_owned(),
                    ),
                );
            },
        };
        let write = QueuedWrite::Texture {
            width,
            height,
            bytes_per_row: row_bytes(bpp, width),
            rows_per_image: height,
            bytes: vstd::slice::slice_to_vec(data),
        };
        context.queue.writes.push(write);
        Ok(())
    }
}

/// Builder for creating textures with custom settings.
#[derive(Debug, Clone)]
pub struct TextureBuilder {
    pub width: u32,
    pub height: u32,
    pub format: TextureFormat,
    pub usage: TextureUsages,
    pub label: Option<String>,
    pub mip_level_count: u32,
    pub sample_count: u32,
    pub sampler_descriptor: SamplerDescriptor,
}

impl TextureBuilder {
    /// Start a builder with the default format, usage and sampler.
    pub fn new(width: u32, height: u32) -> (r: Self)
        ensures
            r.width == width,
            r.height == height,
            r.format == TextureFormat::Rgba8UnormSrgb,
            r.usage == (TextureUsages {
                copy_src: false,
                copy_dst: true,
                texture_binding: true,
                render_attachment: false,
            }),
            r.label is None,
            r.mip_level_count == 1,
            r.sample_count == 1,
            r.sampler_descriptor == SamplerDescriptor::spec_default_sampler(),
    {
        Self {
            width,
            height,
            format: TextureFormat::Rgba8UnormSrgb,
            usage: TextureUsages::binding_and_copy_dst(),
            label: None,
            mip_level_count: 1,
            sample_count: 1,
            sampler_descriptor: SamplerDescriptor::default_sampler(),
        }
    }

    /// Set the pixel format.
    pub fn format(self, format: TextureFormat) -> (r: Self)
        ensures
            r == (TextureBuilder { format, ..self }),
    {
        Self { format, ..self }
    }

    /// Set the usage flags.
    pub fn usage(self, usage: TextureUsages) -> (r: Self)
        ensures
            r == (TextureBuilder { usage, ..self }),
    {
        Self { usage, ..self }
    }

    /// Set a debug label.
    pub fn label(self, label: &str) -> (r: Self)
        ensures
            r.width == self.width,
            r.height == self.height,
            r.format == self.format,
            r.usage == self.usage,
            r.label matches Some(l) && l@ == label@,
            r.mip_level_count == self.mip_level_count,
            r.sample_count == self.sample_count,
            r.sampler_descriptor == self.sampler_descriptor,
    {
        Self { label: Some(label.to_owned()), ..self }
    }

    /// Set the number of mip levels.
    pub fn mip_levels(self, count: u32) -> (r: Self)
        ensures
            r == (TextureBuilder { mip_level_count: count, ..self }),
    {
        Self { mip_level_count: count, ..self }
    }

    /// Set the multisample count.
    pub fn sample_count(self, count: u32) -> (r: Self)
        ensures
            r == (TextureBuilder { sample_count: count, ..self }),
    {
        Self { sample_count: count, ..self }
    }

    /// Set the sampler configuration.
    pub fn sampler(self, sampler_descriptor: SamplerDescriptor) -> (r: Self)
        ensures
            r == (TextureBuilder { sampler_descriptor, ..self }),
    {
        Self { sampler_descriptor, ..self }
    }

    /// Build the texture.
    pub fn build(self, _context: &GpuContext) -> (r: Result<Texture, GeepuError>)
        ensures
            r == Ok::<Texture, GeepuError>(Texture {
                width: self.width,
                height: self.height,
                format: self.format,
                usage: self.usage,
                mip_level_count: self.mip_level_count,
                sample_count: self.sample_count,
                sampler: self.sampler_descriptor,
            }),
    {
        Ok(
            Texture {
                width: self.width,
                height: self.height,
                format: self.format,
                usage: self.usage,
                mip_level_count: self.mip_level_count,
                sample_count: self.sample_count,
                sampler: self.sampler_descriptor,
            },
        )
    }
}

} // verus!

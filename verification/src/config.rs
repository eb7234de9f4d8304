//! Configuration types for Geepu.

use vstd::prelude::*;

verus! {

/// Size configuration for textures and surfaces.
#[derive(Debug, Clone, Copy, PartialEq, Eq, Structural)]
pub struct Size {
    pub width: u32,
    pub height: u32,
}

impl Size {
    /// Create a new size.
    pub fn new(width: u32, height: u32) -> (r: Self)
        ensures
            r.width == width,
            r.height == height,
    {
        Self { width, height }
    }
}

/// Which GPU backends the instance may use.
#[derive(Debug, Clone, Copy, PartialEq, Eq, Structural)]
pub struct Backends {
    pub vulkan: bool,
    pub gl: bool,
    pub metal: bool,
    pub dx12: bool,
    pub webgpu: bool,
}

impl Backends {
    /// Spec view of `Backends::all`.
    pub open spec fn spec_all() -> Backends {
        Backends { vulkan: true, gl: true, metal: true, dx12: true, webgpu: true }
    }

    /// Every backend.
    pub fn all() -> (r: Self)
        ensures
            r == (Backends { vulkan: true, gl: true, metal: true, dx12: true, webgpu: true }),
    {
        Backends { vulkan: true, gl: true, metal: true, dx12: true, webgpu: true }
    }

    /// The primary, well-supported backends.
    pub fn primary() -> (r: Self)
        ensures
            r == (Backends { vulkan: true, gl: false, metal: true, dx12: true, webgpu: true }),
    {
        Backends { vulkan: true, gl: false, metal: true, dx12: true, webgpu: true }
    }
}

/// An opaque set of optional device features, as a bit set.
#[derive(Debug, Clone, Copy, PartialEq, Eq, Structural)]
pub struct Features {
    pub bits: u64,
}

impl Features {
    /// No optional features.
    pub fn empty() -> (r: Self)
        ensures
            r.bits == 0,
    {
        Features { bits: 0 }
    }
}

/// Device limits the application asks for.
#[derive(Debug, Clone, Copy, PartialEq, Eq, Structural)]
pub struct Limits {
    pub max_texture_dimension_2d: u32,
    pub max_bind_groups: u32,
    pub max_buffer_size: u64,
}

impl Limits {
    /// Spec view of the default limits.
    pub open spec fn spec_default() -> Limits {
        Limits { max_texture_dimension_2d: 8192, max_bind_groups: 4, max_buffer_size: 268435456 }
    }
}

impl Default for Limits {
    /// The baseline limits every conformant device supports.
    fn default() -> (r: Self)
        ensures
            r.max_texture_dimension_2d == 8192,
            r.max_bind_groups == 4,
            r.max_buffer_size == 268435456,
    {
        Limits { max_texture_dimension_2d: 8192, max_bind_groups: 4, max_buffer_size: 268435456 }
    }
}

/// Preference between power saving and performance during adapter selection.
#[derive(Debug, Clone, Copy, PartialEq, Eq, Structural)]
pub enum PowerPreference {
    NoPreference,
    LowPower,
    HighPerformance,
}

impl Default for PowerPreference {
    fn default() -> (r: Self)
        ensures
            r == PowerPreference::NoPreference,
    {
        PowerPreference::NoPreference
    }
}

/// Window configuration for windowed rendering.
#[derive(Debug, Clone)]
pub struct WindowConfig {
    pub title: String,
    pub size: Size,
    pub resizable: bool,
    pub vsync: bool,
}

impl Default for WindowConfig {
    fn default() -> (r: Self)
        ensures
            r.title@ == "Geepu Application"@,
            r.size == (Size { width: 1280, height: 720 }),
            r.resizable,
            r.vsync,
    {
        Self {
            title: "Geepu Application".to_owned(),
            size: Size::new(1280, 720),
            resizable: true,
            vsync: true,
        }
    }
}

impl WindowConfig {
    /// Create a new window configuration.
    pub fn new(title: &str, size: Size) -> (r: Self)
        ensures
            r.title@ == title@,
            r.size == size,
            r.resizable,
            r.vsync,
    {
        Self { title: title.to_owned(), size, resizable: true, vsync: true }
    }

    /// Set whether the window is resizable.
    pub fn resizable(self, resizable: bool) -> (r: Self)
        ensures
            r.title@ == self.title@,
            r.size == self.size,
            r.resizable == resizable,
            r.vsync == self.vsync,
    {
        Self { resizable, ..self }
    }

    /// Set whether vsync is enabled.
    pub fn vsync(self, vsync: bool) -> (r: Self)
        ensures
            r.title@ == self.title@,
            r.size == self.size,
            r.resizable == self.resizable,
            r.vsync == vsync,
    {
        Self { vsync, ..self }
    }
}

/// Advanced GPU configuration.
#[derive(Debug, Clone, Copy, PartialEq, Eq, Structural)]
pub struct GpuConfig {
    /// Which backends to consider.
    pub backends: Backends,
    /// Required device features.
    pub features: Features,
    /// Device limits.
    pub limits: Limits,
    /// Power preference for adapter selection.
    pub power_preference: PowerPreference,
    /// Force use of a fallback (software) adapter.
    pub force_fallback_adapter: bool,
}

impl Default for GpuConfig {
    fn default() -> (r: Self)
        ensures
            r.backends == Backends::spec_all(),
            r.features.bits == 0,
            r.limits == Limits::spec_default(),
            r.power_preference == PowerPreference::NoPreference,
            !r.force_fallback_adapter,
    {
        Self {
            backends: Backends::all(),
            features: Features::empty(),
            limits: Limits::default(),
            power_preference: PowerPreference::NoPreference,
            force_fallback_adapter: false,
        }
    }
}

impl GpuConfig {
    /// Defaults optimized for performance.
    pub fn performance() -> (r: Self)
        ensures
            r.power_preference == PowerPreference::HighPerformance,
            r.backends == Backends::spec_all(),
            r.features.bits == 0,
            r.limits == Limits::spec_default(),
            !r.force_fallback_adapter,
    {
        Self { power_preference: PowerPreference::HighPerformance, ..Default::default() }
    }

    /// Defaults optimized for power saving.
    pub fn low_power() -> (r: Self)
        ensures
            r.power_preference == PowerPreference::LowPower,
            r.backends == Backends::spec_all(),
            r.features.bits == 0,
            r.limits == Limits::spec_default(),
            !r.force_fallback_adapter,
    {
        Self { power_preference: PowerPreference::LowPower, ..Default::default() }
    }

    /// Set the backends to use.
    pub fn backends(self, backends: Backends) -> (r: Self)
        ensures
            r == (GpuConfig { backends, ..self }),
    {
        Self { backends, ..self }
    }

    /// Set required features.
    pub fn features(self, features: Features) -> (r: Self)
        ensures
            r == (GpuConfig { features, ..self }),
    {
        Self { features, ..self }
    }

    /// Set device limits.
    pub fn limits(self, limits: Limits) -> (r: Self)
        ensures
            r == (GpuConfig { limits, ..self }),
    {
        Self { limits, ..self }
    }

    /// Force fallback adapter.
    pub fn force_fallback_adapter(self, force: bool) -> (r: Self)
        ensures
            r == (GpuConfig { force_fallback_adapter: force, ..self }),
    {
        Self { force_fallback_adapter: force, ..self }
    }
}

} // verus!

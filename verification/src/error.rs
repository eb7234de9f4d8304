//! Error types for Geepu.
//!
//! Every fallible operation returns a discriminated error rather than
//! panicking; the variant is the discriminant callers branch on, and most
//! variants carry a human-readable message.

use vstd::prelude::*;

verus! {

/// Main error type for Geepu operations.
#[derive(Debug)]
pub enum GeepuError {
    /// No suitable GPU adapter was found during initialization.
    AdapterNotFound,
    /// The adapter rejected the device request.
    DeviceRequestFailed(String),
    /// Creating a presentation surface failed.
    SurfaceCreationFailed(String),
    /// Shader compilation failed.
    ShaderCompilation(String),
    /// A named resource was not found in its registry.
    ResourceNotFound(String),
    /// A typed retrieval did not match the stored element type.
    TypeMismatch(String),
    /// A buffer write was longer than the buffer's capacity.
    CapacityExceeded,
    /// Pixel data length did not match `width * height * bytes_per_pixel`.
    SizeMismatch(String),
    /// The pixel format is not in the bytes-per-pixel table.
    UnsupportedFormat(String),
    /// A bind group's entries do not cover its layout's entries exactly.
    IncompleteBindGroup(String),
    /// The requested entry point is absent from the shader module.
    ShaderEntryPointMissing(String),
    /// An operation was issued in an invalid state (e.g. a second pass was
    /// opened before the first was closed, or a session was submitted twice).
    InvalidOperation(String),
    /// Mapping a staging buffer for read-back failed.
    MapFailed(String),
    /// An I/O error, e.g. while reading a shader source file.
    Io(String),
    /// An image decoding or conversion error.
    Image(String),
    /// Any other error, with a message.
    Generic(String),
}

impl GeepuError {
    /// The discriminant's name as a short string.
    pub open spec fn spec_kind_name(&self) -> Seq<char> {
        match self {
            GeepuError::AdapterNotFound => "adapter not found"@,
            GeepuError::DeviceRequestFailed(_) => "device request failed"@,
            GeepuError::SurfaceCreationFailed(_) => "surface creation failed"@,
            GeepuError::ShaderCompilation(_) => "shader compilation"@,
            GeepuError::ResourceNotFound(_) => "resource not found"@,
            GeepuError::TypeMismatch(_) => "type mismatch"@,
            GeepuError::CapacityExceeded => "capacity exceeded"@,
            GeepuError::SizeMismatch(_) => "size mismatch"@,
            GeepuError::UnsupportedFormat(_) => "unsupported format"@,
            GeepuError::IncompleteBindGroup(_) => "incomplete bind group"@,
            GeepuError::ShaderEntryPointMissing(_) => "shader entry point missing"@,
            GeepuError::InvalidOperation(_) => "invalid operation"@,
            GeepuError::MapFailed(_) => "map failed"@,
            GeepuError::Io(_) => "io"@,
            GeepuError::Image(_) => "image"@,
            GeepuError::Generic(_) => "generic"@,
        }
    }

    /// The discriminant's name, for logs and messages.
    pub fn kind_name(&self) -> (r: &'static str)
        ensures
            r@ == self.spec_kind_name(),
    {
        match self {
            GeepuError::AdapterNotFound => "adapter not found",
            GeepuError::DeviceRequestFailed(_) => "device request failed",
            GeepuError::SurfaceCreationFailed(_) => "surface creation failed",
            GeepuError::ShaderCompilation(_) => "shader compilation",
            GeepuError::ResourceNotFound(_) => "resource not found",
            GeepuError::TypeMismatch(_) => "type mismatch",
            GeepuError::CapacityExceeded => "capacity exceeded",
            GeepuError::SizeMismatch(_) => "size mismatch",
            GeepuError::UnsupportedFormat(_) => "unsupported format",
            GeepuError::IncompleteBindGroup(_) => "incomplete bind group",
            GeepuError::ShaderEntryPointMissing(_) => "shader entry point missing",
            GeepuError::InvalidOperation(_) => "invalid operation",
            GeepuError::MapFailed(_) => "map failed",
            GeepuError::Io(_) => "io",
            GeepuError::Image(_) => "image",
            GeepuError::Generic(_) => "generic",
        }
    }
}

/// Result type alias for Geepu operations.
pub type GeepuResult<T> = Result<T, GeepuError>;

} // verus!

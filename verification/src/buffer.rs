//! Typed buffer abstraction: usage flags, the `TypedBuffer` model with
//! capacity-checked writes, vertex layout building and staging buffers.

use vstd::prelude::*;

use core::marker::PhantomData;

use crate::context::{Command, CommandEncoder, GpuContext, QueuedWrite};
use crate::error::GeepuError;

verus! {

/// Allowed uses of a buffer.
#[derive(Debug, Clone, Copy, PartialEq, Eq, Structural)]
pub struct BufferUsages {
    pub vertex: bool,
    pub index: bool,
    pub uniform: bool,
    pub storage: bool,
    pub copy_src: bool,
    pub copy_dst: bool,
    pub map_read: bool,
}

impl BufferUsages {
    /// No uses; combine with `union`.
    pub open spec fn spec_none() -> BufferUsages {
        BufferUsages {
            vertex: false,
            index: false,
            uniform: false,
            storage: false,
            copy_src: false,
            copy_dst: false,
            map_read: false,
        }
    }

    /// Usable as a vertex buffer.
    pub fn vertex() -> (r: Self)
        ensures
            r == (BufferUsages { vertex: true, ..Self::spec_none() }),
    {
        BufferUsages { vertex: true, ..Self::none() }
    }

    /// Usable as an index buffer.
    pub fn index() -> (r: Self)
        ensures
            r == (BufferUsages { index: true, ..Self::spec_none() }),
    {
        BufferUsages { index: true, ..Self::none() }
    }

    /// Usable as a uniform buffer.
    pub fn uniform() -> (r: Self)
        ensures
            r == (BufferUsages { uniform: true, ..Self::spec_none() }),
    {
        BufferUsages { uniform: true, ..Self::none() }
    }

    /// Usable as a storage buffer.
    pub fn storage() -> (r: Self)
        ensures
            r == (BufferUsages { storage: true, ..Self::spec_none() }),
    {
        BufferUsages { storage: true, ..Self::none() }
    }

    /// Usable as the destination of copies and queued writes.
    pub fn copy_dst() -> (r: Self)
        ensures
            r == (BufferUsages { copy_dst: true, ..Self::spec_none() }),
    {
        BufferUsages { copy_dst: true, ..Self::none() }
    }

    /// Usable as the source of copies.
    pub fn copy_src() -> (r: Self)
        ensures
            r == (BufferUsages { copy_src: true, ..Self::spec_none() }),
    {
        BufferUsages { copy_src: true, ..Self::none() }
    }

    /// Mappable for host reads.
    pub fn map_read() -> (r: Self)
        ensures
            r == (BufferUsages { map_read: true, ..Self::spec_none() }),
    {
        BufferUsages { map_read: true, ..Self::none() }
    }

    /// No uses; combine with `union`.
    pub fn none() -> (r: Self)
        ensures
            r == Self::spec_none(),
    {
        BufferUsages {
            vertex: false,
            index: false,
            uniform: false,
            storage: false,
            copy_src: false,
            copy_dst: false,
            map_read: false,
        }
    }

    /// The union of two usage sets.
    pub open spec fn spec_union(self, other: Self) -> BufferUsages {
        BufferUsages {
            vertex: self.vertex || other.vertex,
            index: self.index || other.index,
            uniform: self.uniform || other.uniform,
            storage: self.storage || other.storage,
            copy_src: self.copy_src || other.copy_src,
            copy_dst: self.copy_dst || other.copy_dst,
            map_read: self.map_read || other.map_read,
        }
    }

    /// The union of two usage sets.
    pub fn union(self, other: Self) -> (r: Self)
        ensures
            r == self.spec_union(other),
    {
        BufferUsages {
            vertex: self.vertex || other.vertex,
            index: self.index || other.index,
            uniform: self.uniform || other.uniform,
            storage: self.storage || other.storage,
            copy_src: self.copy_src || other.copy_src,
            copy_dst: self.copy_dst || other.copy_dst,
            map_read: self.map_read || other.map_read,
        }
    }
}

/// A raw device buffer allocation, reduced to what the recording model
/// reads of it: its byte size.
#[derive(Debug, Clone, Copy, PartialEq, Eq, Structural)]
pub struct Buffer {
    pub size: u64,
}

/// Relies on `bytemuck::cast_slice`: reinterprets a slice of plain-old-data
/// values as its bytes, `size_of::<T>()` bytes per element; casting to bytes
/// never fails.
#[verifier::external_body]
pub(crate) fn pod_bytes<T: bytemuck::Pod>(data: &[T]) -> (r: Vec<u8>)
    ensures
        r@.len() == data@.len() * vstd::layout::size_of::<T>(),
{
    bytemuck::cast_slice(data).to_vec()
}

/// Relies on `bytemuck::cast_slice` via `core::slice::from_ref`: the bytes
/// of one plain-old-data value, `size_of::<T>()` of them.
#[verifier::external_body]
pub(crate) fn pod_bytes_one<T: bytemuck::Pod>(data: &T) -> (r: Vec<u8>)
    ensures
        r@.len() == vstd::layout::size_of::<T>(),
{
    bytemuck::cast_slice(core::slice::from_ref(data)).to_vec()
}

/// A typed buffer: a raw allocation paired with a logical element type.
///
/// The invariant `TypedBuffer::wf` ties the allocation's byte size to
/// `len * size_of::<T>()`.
#[derive(Debug)]
pub struct TypedBuffer<T> {
    /// The underlying allocation.
    pub buffer: Buffer,
    /// Number of elements the buffer holds.
    pub len: usize,
    /// Allowed uses.
    pub usage: BufferUsages,
    /// The initial contents handed to the device at creation, when the
    /// buffer was created with data.
    pub init: Option<Vec<u8>>,
    pub _phantom: PhantomData<T>,
}

impl<T> TypedBuffer<T> {
    /// Well-formedness: the allocation is exactly `len` elements of `T`,
    /// and the initial contents, if any, fill it.
    pub open spec fn wf(self) -> bool {
        &&& self.buffer.size == self.len * vstd::layout::size_of::<T>()
        &&& self.len * vstd::layout::size_of::<T>() <= usize::MAX
        &&& self.init matches Some(b) ==> b@.len() == self.len * vstd::layout::size_of::<T>()
    }

    /// Get the underlying buffer.
    pub fn buffer(&self) -> (r: &Buffer)
        ensures
            r == self.buffer,
    {
        &self.buffer
    }

    /// Number of elements in the buffer.
    pub fn len(&self) -> (r: usize)
        ensures
            r == self.len,
    {
        self.len
    }

    /// Whether the buffer holds no elements.
    pub fn is_empty(&self) -> (r: bool)
        ensures
            r == (self.len == 0),
    {
        self.len == 0
    }

    /// Size of the buffer in bytes.
    pub fn size_bytes(&self) -> (r: u64)
        ensures
            r == self.buffer.size,
            self.wf() ==> r == self.len * vstd::layout::size_of::<T>(),
    {
        self.buffer.size
    }
}

impl<T: bytemuck::Pod> TypedBuffer<T> {
    /// Create a new buffer holding `data`, sized exactly to it.
    pub fn new(_context: &GpuContext, data: &[T], usage: BufferUsages) -> (r: Result<
        Self,
        GeepuError,
    >)
        ensures
            r matches Ok(b) && b.wf() && b.len == data@.len() && b.usage == usage && b.init is Some,
    {
        let bytes = pod_bytes(data);
        let size = bytes.len() as u64;
        Ok(
            TypedBuffer {
                buffer: Buffer { size },
                len: data.len(),
                usage,
                init: Some(bytes),
                _phantom: PhantomData,
            },
        )
    }

    /// Create an empty (zero-initialized) buffer with capacity for `len`
    /// elements.
    pub fn empty(_context: &GpuContext, len: usize, usage: BufferUsages) -> (r: Result<
        Self,
        GeepuError,
    >)
        requires
            len * vstd::layout::size_of::<T>() <= usize::MAX,
        ensures
            r matches Ok(b) && b.wf() && b.len == len && b.usage == usage && b.init is None,
    {
        let elem = core::mem::size_of::<T>();
        let size = (len as u64) * (elem as u64);
        Ok(
            TypedBuffer {
                buffer: Buffer { size },
                len,
                usage,
                init: None,
                _phantom: PhantomData,
            },
        )
    }

    /// Write `data` to the buffer. Fails with the capacity-exceeded error —
    /// queuing nothing — exactly when `data` is longer than the buffer's
    /// capacity; otherwise succeeds and queues a device-side write of the
    /// data's bytes at offset 0.
    pub fn write(&self, context: &mut GpuContext, data: &[T]) -> (r: Result<(), GeepuError>)
        ensures
            r is Ok <==> data@.len() <= self.len,
            data@.len() > self.len <==> r == Err::<(), GeepuError>(GeepuError::CapacityExceeded),
            r is Err ==> *final(context) == *old(context),
            r is Ok ==> {
                &&& queue_plus_write_of_len(
                    old(context).queue,
                    final(context).queue,
                    0,
                    (data@.len() * vstd::layout::size_of::<T>()) as int,
                )
                &&& final(context).surface_config == old(context).surface_config
                &&& final(context).features == old(context).features
            },
    {
        if data.len() > self.len {
            return Err(GeepuError::CapacityExceeded);
        }
        let bytes = pod_bytes(data);
        context.queue.writes.push(QueuedWrite::Buffer { offset: 0, bytes });
        Ok(())
    }

    /// Create a vertex buffer.
    pub fn vertex(context: &GpuContext, data: &[T]) -> (r: Result<Self, GeepuError>)
        ensures
            r matches Ok(b) && b.wf() && b.len == data@.len() && b.usage == (BufferUsages {
                vertex: true,
                ..BufferUsages::spec_none()
            }) && b.init is Some,
    {
        Self::new(context, data, BufferUsages::vertex())
    }

    /// Create an index buffer.
    pub fn index(context: &GpuContext, data: &[T]) -> (r: Result<Self, GeepuError>)
        ensures
            r matches Ok(b) && b.wf() && b.len == data@.len() && b.usage == (BufferUsages {
                index: true,
                ..BufferUsages::spec_none()
            }) && b.init is Some,
    {
        Self::new(context, data, BufferUsages::index())
    }

    /// Create a uniform buffer that can receive queued writes.
    pub fn uniform(context: &GpuContext, data: &[T]) -> (r: Result<Self, GeepuError>)
        ensures
            r matches Ok(b) && b.wf() && b.len == data@.len() && b.usage == (BufferUsages {
                uniform: true,
                copy_dst: true,
                ..BufferUsages::spec_none()
            }) && b.init is Some,
    {
        Self::new(context, data, BufferUsages::uniform().union(BufferUsages::copy_dst()))
    }

    /// Create a storage buffer that can receive queued writes.
    pub fn storage(context: &GpuContext, data: &[T]) -> (r: Result<Self, GeepuError>)
        ensures
            r matches Ok(b) && b.wf() && b.len == data@.len() && b.usage == (BufferUsages {
                storage: true,
                copy_dst: true,
                ..BufferUsages::spec_none()
            }) && b.init is Some,
    {
        Self::new(context, data, BufferUsages::storage().union(BufferUsages::copy_dst()))
    }
}

/// Holds when `new_q` is `old_q` with exactly one buffer write of
/// `byte_len` bytes appended at `offset`, and nothing else changed.
pub open spec fn queue_plus_write_of_len(
    old_q: crate::context::GpuQueue,
    new_q: crate::context::GpuQueue,
    offset: u64,
    byte_len: int,
) -> bool {
    &&& new_q.submitted == old_q.submitted
    &&& new_q.writes@.len() == old_q.writes@.len() + 1
    &&& new_q.writes@.subrange(0, old_q.writes@.len() as int) =~= old_q.writes@
    &&& new_q.writes@.last() matches QueuedWrite::Buffer { offset: o, bytes: b } && o == offset
        && b@.len() == byte_len
}

/// Format of one vertex attribute.
#[derive(Debug, Clone, Copy, PartialEq, Eq, Structural)]
pub enum VertexFormat {
    Uint8x2,
    Uint8x4,
    Unorm8x4,
    Uint16x2,
    Uint16x4,
    Uint32,
    Uint32x2,
    Uint32x3,
    Uint32x4,
    Sint32,
    Float32,
    Float32x2,
    Float32x3,
    Float32x4,
}

impl VertexFormat {
    /// Byte size of one attribute of this format.
    pub open spec fn spec_size(self) -> u64 {
        match self {
            VertexFormat::Uint8x2 => 2u64,
            VertexFormat::Uint8x4 => 4u64,
            VertexFormat::Unorm8x4 => 4u64,
            VertexFormat::Uint16x2 => 4u64,
            VertexFormat::Uint16x4 => 8u64,
            VertexFormat::Uint32 => 4u64,
            VertexFormat::Uint32x2 => 8u64,
            VertexFormat::Uint32x3 => 12u64,
            VertexFormat::Uint32x4 => 16u64,
            VertexFormat::Sint32 => 4u64,
            VertexFormat::Float32 => 4u64,
            VertexFormat::Float32x2 => 8u64,
            VertexFormat::Float32x3 => 12u64,
            VertexFormat::Float32x4 => 16u64,
        }
    }

    /// Byte size of one attribute of this format.
    pub fn size(self) -> (r: u64)
        ensures
            r == self.spec_size(),
    {
        match self {
            VertexFormat::Uint8x2 => 2u64,
            VertexFormat::Uint8x4 => 4u64,
            VertexFormat::Unorm8x4 => 4u64,
            VertexFormat::Uint16x2 => 4u64,
            VertexFormat::Uint16x4 => 8u64,
            VertexFormat::Uint32 => 4u64,
            VertexFormat::Uint32x2 => 8u64,
            VertexFormat::Uint32x3 => 12u64,
            VertexFormat::Uint32x4 => 16u64,
            VertexFormat::Sint32 => 4u64,
            VertexFormat::Float32 => 4u64,
            VertexFormat::Float32x2 => 8u64,
            VertexFormat::Float32x3 => 12u64,
            VertexFormat::Float32x4 => 16u64,
        }
    }
}

/// Whether a vertex buffer advances per vertex or per instance.
#[derive(Debug, Clone, Copy, PartialEq, Eq, Structural)]
pub enum VertexStepMode {
    Vertex,
    Instance,
}

/// One vertex attribute: where it sits in the stride and which shader
/// location reads it.
#[derive(Debug, Clone, Copy, PartialEq, Eq, Structural)]
pub struct VertexAttribute {
    pub offset: u64,
    pub shader_location: u32,
    pub format: VertexFormat,
}

/// The layout of one vertex buffer slot.
#[derive(Debug, Clone, PartialEq, Eq)]
pub struct VertexBufferLayout {
    pub array_stride: u64,
    pub step_mode: VertexStepMode,
    pub attributes: Vec<VertexAttribute>,
}

/// Attributes are tightly packed: each attribute starts where the previous
/// one ended, and the stride is the total size.
pub open spec fn packed_attributes(attrs: Seq<VertexAttribute>, stride: u64) -> bool {
    &&& forall|i: int|
        0 <= i < attrs.len() ==> attrs[i].offset == sum_of_sizes(attrs.subrange(0, i))
    &&& stride == sum_of_sizes(attrs)
}

/// The total byte size of a sequence of attributes.
pub open spec fn sum_of_sizes(attrs: Seq<VertexAttribute>) -> int
    decreases attrs.len(),
{
    if attrs.len() == 0 {
        0
    } else {
        sum_of_sizes(attrs.drop_last()) + attrs.last().format.spec_size()
    }
}

/// Packed attributes do not overlap: each attribute ends at or before the
/// next one's offset, and the last ends at or before the stride.
pub proof fn lemma_packed_attributes_do_not_overlap(attrs: Seq<VertexAttribute>, stride: u64)
    requires
        packed_attributes(attrs, stride),
    ensures
        forall|i: int|
            0 <= i && i + 1 < attrs.len() ==> attrs[i].offset + attrs[i].format.spec_size()
                <= attrs[i + 1].offset,
        attrs.len() > 0 ==> attrs.last().offset + attrs.last().format.spec_size() <= stride,
{
    assert forall|i: int| 0 <= i && i + 1 < attrs.len() implies attrs[i].offset
        + attrs[i].format.spec_size() <= attrs[i + 1].offset by {
        assert(attrs.subrange(0, i + 1).drop_last() =~= attrs.subrange(0, i));
        assert(sum_of_sizes(attrs.subrange(0, i + 1)) == sum_of_sizes(attrs.subrange(0, i))
            + attrs[i].format.spec_size());
    }
    if attrs.len() > 0 {
        let n = attrs.len() as int;
        assert(attrs.subrange(0, n - 1) =~= attrs.drop_last());
        assert(sum_of_sizes(attrs) == sum_of_sizes(attrs.drop_last())
            + attrs.last().format.spec_size());
    }
}

/// A builder for creating vertex buffer layouts with ergonomic attribute
/// specification. Offsets are assigned consecutively, so the attributes of
/// the built layout never overlap.
#[derive(Debug, Clone, PartialEq, Eq)]
pub struct VertexBufferBuilder {
    pub attributes: Vec<VertexAttribute>,
    pub stride: u64,
    pub step_mode: VertexStepMode,
}

impl VertexBufferBuilder {
    /// An empty builder stepping per vertex.
    pub fn new() -> (r: Self)
        ensures
            r.attributes@ =~= Seq::<VertexAttribute>::empty(),
            r.stride == 0,
            r.step_mode == VertexStepMode::Vertex,
            packed_attributes(r.attributes@, r.stride),
    {
        let r = VertexBufferBuilder {
            attributes: Vec::new(),
            stride: 0,
            step_mode: VertexStepMode::Vertex,
        };
        proof {
            assert(sum_of_sizes(r.attributes@) == 0);
        }
        r
    }

    /// Add a vertex attribute at the current end of the stride.
    pub fn attribute(self, format: VertexFormat, shader_location: u32) -> (r: Self)
        requires
            self.stride + format.spec_size() <= u64::MAX,
        ensures
            r.attributes@ =~= self.attributes@.push(
                VertexAttribute { offset: self.stride, shader_location, format },
            ),
            r.stride == self.stride + format.spec_size(),
            r.step_mode == self.step_mode,
            packed_attributes(self.attributes@, self.stride) ==> packed_attributes(
                r.attributes@,
                r.stride,
            ),
    {
        let mut attributes = self.attributes;
        let offset = self.stride;
        attributes.push(VertexAttribute { offset, shader_location, format });
        let stride = self.stride + format.size();
        proof {
            let new_attrs = attributes@;
            let old_attrs = new_attrs.drop_last();
            assert(old_attrs =~= self.attributes@);
            if packed_attributes(self.attributes@, self.stride) {
                assert forall|i: int| 0 <= i < new_attrs.len() implies new_attrs[i].offset
                    == sum_of_sizes(new_attrs.subrange(0, i)) by {
                    assert(new_attrs.subrange(0, i) =~= if i < new_attrs.len() - 1 {
                        self.attributes@.subrange(0, i)
                    } else {
                        self.attributes@
                    });
                }
            }
        }
        VertexBufferBuilder { attributes, stride, step_mode: self.step_mode }
    }

    /// Set step mode (vertex or instance).
    pub fn step_mode(self, step_mode: VertexStepMode) -> (r: Self)
        ensures
            r.attributes@ == self.attributes@,
            r.stride == self.stride,
            r.step_mode == step_mode,
    {
        VertexBufferBuilder { step_mode, ..self }
    }

    /// Build the vertex buffer layout.
    pub fn build(self) -> (r: VertexBufferLayout)
        ensures
            r.array_stride == self.stride,
            r.step_mode == self.step_mode,
            r.attributes@ == self.attributes@,
    {
        VertexBufferLayout {
            array_stride: self.stride,
            step_mode: self.step_mode,
            attributes: self.attributes,
        }
    }
}

impl Default for VertexBufferBuilder {
    fn default() -> (r: Self)
        ensures
            r.attributes@ =~= Seq::<VertexAttribute>::empty(),
            r.stride == 0,
            r.step_mode == VertexStepMode::Vertex,
    {
        Self::new()
    }
}

/// A staging buffer for device-to-host data transfers. It is only ever a
/// copy destination and mappable for reads, never a shader-visible binding.
#[derive(Debug, Clone, Copy, PartialEq, Eq, Structural)]
pub struct StagingBuffer {
    pub buffer: Buffer,
    pub size: u64,
    pub usage: BufferUsages,
}

impl StagingBuffer {
    /// Staging buffers are never shader-visible.
    pub open spec fn wf(self) -> bool {
        &&& !self.usage.vertex
        &&& !self.usage.index
        &&& !self.usage.uniform
        &&& !self.usage.storage
        &&& self.usage.map_read
        &&& self.usage.copy_dst
    }

    /// Create a new staging buffer of `size` bytes, mappable for reads.
    pub fn new(_context: &GpuContext, size: u64) -> (r: Result<Self, GeepuError>)
        ensures
            r matches Ok(b) && b.wf() && b.size == size && b.buffer == (Buffer { size }),
    {
        Ok(
            StagingBuffer {
                buffer: Buffer { size },
                size,
                usage: BufferUsages::map_read().union(BufferUsages::copy_dst()),
            },
        )
    }

    /// Record a device-to-device copy from `source` into this staging
    /// buffer. Copies the whole staging size unless `size` narrows it.
    pub fn copy_from_buffer(
        &self,
        encoder: &mut CommandEncoder,
        source: &Buffer,
        size: Option<u64>,
    )
        ensures
            final(encoder).commands@ =~= old(encoder).commands@.push(
                Command::CopyBufferToBuffer {
                    source_offset: 0,
                    destination_offset: 0,
                    size: match size {
                        Some(s) => s,
                        None => self.size,
                    },
                },
            ),
    {
        let copy_size = match size {
            Some(s) => s,
            None => self.size,
        };
        encoder.commands.push(
            Command::CopyBufferToBuffer {
                source_offset: 0,
                destination_offset: 0,
                size: copy_size,
            },
        );
    }

    /// Get the underlying buffer.
    pub fn buffer(&self) -> (r: &Buffer)
        ensures
            r == self.buffer,
    {
        &self.buffer
    }
}

} // verus!

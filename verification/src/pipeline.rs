//! Pipeline assembly: bind group layouts and groups with validated
//! agreement, render and compute pipeline descriptors, and the simple
//! pipeline composition with automatic binding assignment.

use vstd::prelude::*;

use crate::buffer::{Buffer, TypedBuffer, VertexAttribute, VertexBufferLayout, VertexStepMode};
use crate::context::GpuContext;
use crate::error::GeepuError;
use crate::texture::{Texture, TextureFormat};

verus! {

/// Which shader stages see a binding.
#[derive(Debug, Clone, Copy, PartialEq, Eq, Structural)]
pub struct ShaderStages {
    pub vertex: bool,
    pub fragment: bool,
    pub compute: bool,
}

impl ShaderStages {
    /// Visible to the vertex stage only.
    pub fn vertex() -> (r: Self)
        ensures
            r == (ShaderStages { vertex: true, fragment: false, compute: false }),
    {
        ShaderStages { vertex: true, fragment: false, compute: false }
    }

    /// Visible to the fragment stage only.
    pub fn fragment() -> (r: Self)
        ensures
            r == (ShaderStages { vertex: false, fragment: true, compute: false }),
    {
        ShaderStages { vertex: false, fragment: true, compute: false }
    }

    /// Visible to the compute stage only.
    pub fn compute() -> (r: Self)
        ensures
            r == (ShaderStages { vertex: false, fragment: false, compute: true }),
    {
        ShaderStages { vertex: false, fragment: false, compute: true }
    }

    /// Visible to the vertex and fragment stages.
    pub fn vertex_fragment() -> (r: Self)
        ensures
            r == (ShaderStages { vertex: true, fragment: true, compute: false }),
    {
        ShaderStages { vertex: true, fragment: true, compute: false }
    }

    /// Visible to every stage.
    pub fn all() -> (r: Self)
        ensures
            r == (ShaderStages { vertex: true, fragment: true, compute: true }),
    {
        ShaderStages { vertex: true, fragment: true, compute: true }
    }
}

/// What a sampled texture binding yields.
#[derive(Debug, Clone, Copy, PartialEq, Eq, Structural)]
pub enum TextureSampleType {
    Float { filterable: bool },
    Depth,
    Sint,
    Uint,
}

/// Dimensionality of a texture view.
#[derive(Debug, Clone, Copy, PartialEq, Eq, Structural)]
pub enum TextureViewDimension {
    D1,
    D2,
    D2Array,
    Cube,
    CubeArray,
    D3,
}

/// How a sampler binding may be used.
#[derive(Debug, Clone, Copy, PartialEq, Eq, Structural)]
pub enum SamplerBindingType {
    Filtering,
    NonFiltering,
    Comparison,
}

/// The resource kind a layout entry declares.
#[derive(Debug, Clone, Copy, PartialEq, Eq, Structural)]
pub enum BindingKind {
    UniformBuffer,
    StorageBuffer { read_only: bool },
    Texture {
        sample_type: TextureSampleType,
        view_dimension: TextureViewDimension,
        multisampled: bool,
    },
    Sampler(SamplerBindingType),
}

/// One entry of a bind group layout.
#[derive(Debug, Clone, Copy, PartialEq, Eq, Structural)]
pub struct BindGroupLayoutEntry {
    pub binding: u32,
    pub visibility: ShaderStages,
    pub ty: BindingKind,
}

/// An immutable, ordered set of binding descriptors.
#[derive(Debug)]
pub struct BindGroupLayout {
    pub entries: Vec<BindGroupLayoutEntry>,
}

/// The concrete resource a bind group entry supplies.
#[derive(Debug, Clone, Copy, PartialEq, Eq, Structural)]
pub enum BoundResource {
    Buffer { buffer: Buffer, offset: u64, size: Option<u64> },
    TextureView,
    Sampler,
}

/// One entry of a bind group.
#[derive(Debug, Clone, Copy, PartialEq, Eq, Structural)]
pub struct BindGroupEntry {
    pub binding: u32,
    pub resource: BoundResource,
}

/// A concrete set of resources satisfying a layout.
#[derive(Debug)]
pub struct BindGroup {
    pub entries: Vec<BindGroupEntry>,
}

/// Whether a supplied resource is of the kind a layout entry declares.
pub open spec fn kind_accepts(k: BindingKind, r: BoundResource) -> bool {
    match k {
        BindingKind::UniformBuffer => r is Buffer,
        BindingKind::StorageBuffer { .. } => r is Buffer,
        BindingKind::Texture { .. } => r is TextureView,
        BindingKind::Sampler(_) => r is Sampler,
    }
}

/// No two layout entries share a binding index.
pub open spec fn distinct_layout_bindings(es: Seq<BindGroupLayoutEntry>) -> bool {
    forall|i: int, j: int| 0 <= i < j < es.len() ==> es[i].binding != es[j].binding
}

/// No two group entries share a binding index.
pub open spec fn distinct_group_bindings(es: Seq<BindGroupEntry>) -> bool {
    forall|i: int, j: int| 0 <= i < j < es.len() ==> es[i].binding != es[j].binding
}

/// Some supplied entry has this layout entry's binding index and a
/// resource of its kind.
pub open spec fn some_entry_matches(gs: Seq<BindGroupEntry>, l: BindGroupLayoutEntry) -> bool {
    exists|j: int|
        0 <= j < gs.len() && (#[trigger] gs[j]).binding == l.binding && kind_accepts(
            l.ty,
            gs[j].resource,
        )
}

/// Every layout entry is matched by some supplied entry.
pub open spec fn layout_covered_by(
    ls: Seq<BindGroupLayoutEntry>,
    gs: Seq<BindGroupEntry>,
) -> bool {
    forall|i: int| 0 <= i < ls.len() ==> some_entry_matches(gs, #[trigger] ls[i])
}

/// The supplied entries are a bijection with the layout's entries by
/// binding index and resource kind: binding indices are unique on both
/// sides, the counts agree, and every layout entry is matched by a
/// supplied entry with its binding index and a resource of its kind.
pub open spec fn group_matches_layout(
    ls: Seq<BindGroupLayoutEntry>,
    gs: Seq<BindGroupEntry>,
) -> bool {
    &&& ls.len() == gs.len()
    &&& distinct_layout_bindings(ls)
    &&& distinct_group_bindings(gs)
    &&& layout_covered_by(ls, gs)
}

/// Whether a supplied resource is of the kind a layout entry declares.
fn kind_accepts_exec(k: &BindingKind, r: &BoundResource) -> (b: bool)
    ensures
        b == kind_accepts(*k, *r),
{
    match k {
        BindingKind::UniformBuffer => matches!(r, BoundResource::Buffer { .. }),
        BindingKind::StorageBuffer { .. } => matches!(r, BoundResource::Buffer { .. }),
        BindingKind::Texture { .. } => matches!(r, BoundResource::TextureView),
        BindingKind::Sampler(_) => matches!(r, BoundResource::Sampler),
    }
}

/// Builder for creating bind group layouts.
#[derive(Debug)]
pub struct BindGroupLayoutBuilder {
    pub entries: Vec<BindGroupLayoutEntry>,
}

impl BindGroupLayoutBuilder {
    /// An empty builder.
    pub fn new() -> (r: Self)
        ensures
            r.entries@ =~= Seq::<BindGroupLayoutEntry>::empty(),
    {
        BindGroupLayoutBuilder { entries: Vec::new() }
    }

    /// Add a uniform buffer binding.
    pub fn uniform_buffer(self, binding: u32, visibility: ShaderStages) -> (r: Self)
        ensures
            r.entries@ =~= self.entries@.push(
                BindGroupLayoutEntry { binding, visibility, ty: BindingKind::UniformBuffer },
            ),
    {
        let mut entries = self.entries;
        entries.push(BindGroupLayoutEntry { binding, visibility, ty: BindingKind::UniformBuffer });
        BindGroupLayoutBuilder { entries }
    }

    /// Add a storage buffer binding.
    pub fn storage_buffer(self, binding: u32, visibility: ShaderStages, read_only: bool) -> (r:
        Self)
        ensures
            r.entries@ =~= self.entries@.push(
                BindGroupLayoutEntry {
                    binding,
                    visibility,
                    ty: BindingKind::StorageBuffer { read_only },
                },
            ),
    {
        let mut entries = self.entries;
        entries.push(
            BindGroupLayoutEntry { binding, visibility, ty: BindingKind::StorageBuffer { read_only } },
        );
        BindGroupLayoutBuilder { entries }
    }

    /// Add a sampled texture binding.
    pub fn texture(
        self,
        binding: u32,
        visibility: ShaderStages,
        sample_type: TextureSampleType,
        view_dimension: TextureViewDimension,
        multisampled: bool,
    ) -> (r: Self)
        ensures
            r.entries@ =~= self.entries@.push(
                BindGroupLayoutEntry {
                    binding,
                    visibility,
                    ty: BindingKind::Texture { sample_type, view_dimension, multisampled },
                },
            ),
    {
        let mut entries = self.entries;
        entries.push(
            BindGroupLayoutEntry {
                binding,
                visibility,
                ty: BindingKind::Texture { sample_type, view_dimension, multisampled },
            },
        );
        BindGroupLayoutBuilder { entries }
    }

    /// Add a sampler binding.
    pub fn sampler(
        self,
        binding: u32,
        visibility: ShaderStages,
        sampler_type: SamplerBindingType,
    ) -> (r: Self)
        ensures
            r.entries@ =~= self.entries@.push(
                BindGroupLayoutEntry {
                    binding,
                    visibility,
                    ty: BindingKind::Sampler(sampler_type),
                },
            ),
    {
        let mut entries = self.entries;
        entries.push(
            BindGroupLayoutEntry { binding, visibility, ty: BindingKind::Sampler(sampler_type) },
        );
        BindGroupLayoutBuilder { entries }
    }

    /// Materialize the accumulated entries, in the order they were added.
    pub fn build(self, _context: &GpuContext, _label: Option<&str>) -> (r: BindGroupLayout)
        ensures
            r.entries@ == self.entries@,
    {
        BindGroupLayout { entries: self.entries }
    }
}

impl Default for BindGroupLayoutBuilder {
    fn default() -> (r: Self)
        ensures
            r.entries@ =~= Seq::<BindGroupLayoutEntry>::empty(),
    {
        Self::new()
    }
}

/// Builder for creating bind groups against a layout.
#[derive(Debug)]
pub struct BindGroupBuilder<'a> {
    pub layout: &'a BindGroupLayout,
    pub entries: Vec<BindGroupEntry>,
}

impl<'a> BindGroupBuilder<'a> {
    /// An empty builder against `layout`.
    pub fn new(layout: &'a BindGroupLayout) -> (r: Self)
        ensures
            r.layout == layout,
            r.entries@ =~= Seq::<BindGroupEntry>::empty(),
    {
        BindGroupBuilder { layout, entries: Vec::new() }
    }

    /// Supply a whole buffer at a binding index.
    pub fn buffer(self, binding: u32, buffer: &Buffer) -> (r: Self)
        ensures
            r.layout == self.layout,
            r.entries@ =~= self.entries@.push(
                BindGroupEntry {
                    binding,
                    resource: BoundResource::Buffer { buffer: *buffer, offset: 0, size: None },
                },
            ),
    {
        let mut entries = self.entries;
        entries.push(
            BindGroupEntry {
                binding,
                resource: BoundResource::Buffer { buffer: *buffer, offset: 0, size: None },
            },
        );
        BindGroupBuilder { layout: self.layout, entries }
    }

    /// Supply a byte range of a buffer at a binding index. A size of zero
    /// (or none) means the whole remaining range from `offset`.
    pub fn buffer_range(self, binding: u32, buffer: &Buffer, offset: u64, size: Option<u64>) -> (r:
        Self)
        ensures
            r.layout == self.layout,
            r.entries@ =~= self.entries@.push(
                BindGroupEntry {
                    binding,
                    resource: BoundResource::Buffer {
                        buffer: *buffer,
                        offset,
                        size: match size {
                            Some(sz) => if sz > 0 {
                                Some(sz)
                            } else {
                                None
                            },
                            None => None,
                        },
                    },
                },
            ),
    {
        let size = match size {
            Some(sz) => if sz > 0 {
                Some(sz)
            } else {
                None
            },
            None => None,
        };
        let mut entries = self.entries;
        entries.push(
            BindGroupEntry { binding, resource: BoundResource::Buffer { buffer: *buffer, offset, size } },
        );
        BindGroupBuilder { layout: self.layout, entries }
    }

    /// Supply a texture view at a binding index.
    pub fn texture_view(self, binding: u32, _view: &Texture) -> (r: Self)
        ensures
            r.layout == self.layout,
            r.entries@ =~= self.entries@.push(
                BindGroupEntry { binding, resource: BoundResource::TextureView },
            ),
    {
        let mut entries = self.entries;
        entries.push(BindGroupEntry { binding, resource: BoundResource::TextureView });
        BindGroupBuilder { layout: self.layout, entries }
    }

    /// Supply a sampler at a binding index.
    pub fn sampler(self, binding: u32, _sampler: &Texture) -> (r: Self)
        ensures
            r.layout == self.layout,
            r.entries@ =~= self.entries@.push(
                BindGroupEntry { binding, resource: BoundResource::Sampler },
            ),
    {
        let mut entries = self.entries;
        entries.push(BindGroupEntry { binding, resource: BoundResource::Sampler });
        BindGroupBuilder { layout: self.layout, entries }
    }

    /// Build the bind group: succeeds exactly when the supplied entries
    /// are a bijection with the layout's entries by binding index and
    /// resource kind; fails with the incomplete-bind-group error otherwise.
    pub fn build(self, _context: &GpuContext, _label: Option<&str>) -> (r: Result<
        BindGroup,
        GeepuError,
    >)
        ensures
            r is Ok <==> group_matches_layout(self.layout.entries@, self.entries@),
            r matches Ok(g) ==> g.entries@ == self.entries@,
            r matches Err(e) ==> e matches GeepuError::IncompleteBindGroup(_),
    {
        let ok = self.entries.len() == self.layout.entries.len() && layout_bindings_distinct(
            &self.layout.entries,
        ) && group_bindings_distinct(&self.entries) && covered(&self.layout.entries, &self.entries);
        if ok {
            Ok(BindGroup { entries: self.entries })
        } else {
            Err(
                GeepuError::IncompleteBindGroup(
                    "bind group entries do not exactly cover the layout".to_owned(),
                ),
            )
        }
    }
}

/// Whether the layout's binding indices are pairwise distinct.
fn layout_bindings_distinct(ls: &Vec<BindGroupLayoutEntry>) -> (b: bool)
    ensures
        b == distinct_layout_bindings(ls@),
{
    let n = ls.len();
    let mut i: usize = 0;
    while i < n
        invariant
            n == ls@.len(),
            i <= n,
            forall|a: int, b: int| 0 <= a < b < n && a < i ==> ls@[a].binding != ls@[b].binding,
        decreases n - i,
    {
        let mut j: usize = i + 1;
        while j < n
            invariant
                n == ls@.len(),
                i < n,
                i + 1 <= j <= n,
                forall|b: int| i < b < j ==> ls@[i as int].binding != ls@[b].binding,
            decreases n - j,
        {
            if ls[i].binding == ls[j].binding {
                assert(!distinct_layout_bindings(ls@)) by {
                    assert(0 <= i < j < ls@.len());
                    assert(ls@[i as int].binding == ls@[j as int].binding);
                }
                return false;
            }
            j = j + 1;
        }
        i = i + 1;
    }
    true
}

/// Whether the group's binding indices are pairwise distinct.
fn group_bindings_distinct(gs: &Vec<BindGroupEntry>) -> (b: bool)
    ensures
        b == distinct_group_bindings(gs@),
{
    let n = gs.len();
    let mut i: usize = 0;
    while i < n
        invariant
            n == gs@.len(),
            i <= n,
            forall|a: int, b: int| 0 <= a < b < n && a < i ==> gs@[a].binding != gs@[b].binding,
        decreases n - i,
    {
        let mut j: usize = i + 1;
        while j < n
            invariant
                n == gs@.len(),
                i < n,
                i + 1 <= j <= n,
                forall|b: int| i < b < j ==> gs@[i as int].binding != gs@[b].binding,
            decreases n - j,
        {
            if gs[i].binding == gs[j].binding {
                assert(!distinct_group_bindings(gs@)) by {
                    assert(0 <= i < j < gs@.len());
                    assert(gs@[i as int].binding == gs@[j as int].binding);
                }
                return false;
            }
            j = j + 1;
        }
        i = i + 1;
    }
    true
}

/// Whether some supplied entry matches the given layout entry.
fn entry_matching(gs: &Vec<BindGroupEntry>, l: &BindGroupLayoutEntry) -> (b: bool)
    ensures
        b == some_entry_matches(gs@, *l),
{
    let n = gs.len();
    let mut j: usize = 0;
    while j < n
        invariant
            n == gs@.len(),
            j <= n,
            forall|k: int|
                0 <= k < j ==> !((#[trigger] gs@[k]).binding == l.binding && kind_accepts(
                    l.ty,
                    gs@[k].resource,
                )),
        decreases n - j,
    {
        if gs[j].binding == l.binding && kind_accepts_exec(&l.ty, &gs[j].resource) {
            assert(some_entry_matches(gs@, *l)) by {
                assert((gs@[j as int]).binding == l.binding && kind_accepts(
                    l.ty,
                    gs@[j as int].resource,
                ));
            }
            return true;
        }
        j = j + 1;
    }
    assert(!some_entry_matches(gs@, *l));
    false
}

/// Whether every layout entry is matched by some supplied entry.
fn covered(ls: &Vec<BindGroupLayoutEntry>, gs: &Vec<BindGroupEntry>) -> (b: bool)
    ensures
        b == layout_covered_by(ls@, gs@),
{
    let n = ls.len();
    let mut i: usize = 0;
    while i < n
        invariant
            n == ls@.len(),
            i <= n,
            forall|a: int| 0 <= a < i ==> some_entry_matches(gs@, #[trigger] ls@[a]),
        decreases n - i,
    {
        if !entry_matching(gs, &ls[i]) {
            assert(!layout_covered_by(ls@, gs@)) by {
                assert(!some_entry_matches(gs@, ls@[i as int]));
            }
            return false;
        }
        i = i + 1;
    }
    true
}

/// Color blend mode of a color target.
#[derive(Debug, Clone, Copy, PartialEq, Eq, Structural)]
pub enum BlendState {
    Replace,
    AlphaBlending,
}

/// Which color channels a pipeline writes.
#[derive(Debug, Clone, Copy, PartialEq, Eq, Structural)]
pub struct ColorWrites {
    pub r: bool,
    pub g: bool,
    pub b: bool,
    pub a: bool,
}

impl ColorWrites {
    /// Write every channel.
    pub fn all() -> (r: Self)
        ensures
            r == (ColorWrites { r: true, g: true, b: true, a: true }),
    {
        ColorWrites { r: true, g: true, b: true, a: true }
    }
}

/// Format and blending of one color target.
#[derive(Debug, Clone, Copy, PartialEq, Eq, Structural)]
pub struct ColorTargetState {
    pub format: TextureFormat,
    pub blend: Option<BlendState>,
    pub write_mask: ColorWrites,
}

/// Depth buffer configuration of a render pipeline.
#[derive(Debug, Clone, Copy, PartialEq, Eq, Structural)]
pub struct DepthStencilState {
    pub format: TextureFormat,
    pub depth_write_enabled: bool,
    pub depth_compare: crate::texture::CompareFunction,
}

/// How vertices are assembled into primitives.
#[derive(Debug, Clone, Copy, PartialEq, Eq, Structural)]
pub enum PrimitiveTopology {
    PointList,
    LineList,
    LineStrip,
    TriangleList,
    TriangleStrip,
}

/// Which winding order counts as the front face.
#[derive(Debug, Clone, Copy, PartialEq, Eq, Structural)]
pub enum FrontFace {
    Ccw,
    Cw,
}

/// Which face of a primitive is culled.
#[derive(Debug, Clone, Copy, PartialEq, Eq, Structural)]
pub enum Face {
    Front,
    Back,
}

/// Primitive assembly configuration.
#[derive(Debug, Clone, Copy, PartialEq, Eq, Structural)]
pub struct PrimitiveState {
    pub topology: PrimitiveTopology,
    pub front_face: FrontFace,
    pub cull_mode: Option<Face>,
}

impl PrimitiveState {
    /// The fixed defaults of this layer: triangle list, counter-clockwise
    /// front face, back-face culling.
    pub open spec fn spec_default_primitives() -> PrimitiveState {
        PrimitiveState {
            topology: PrimitiveTopology::TriangleList,
            front_face: FrontFace::Ccw,
            cull_mode: Some(Face::Back),
        }
    }

    /// The fixed defaults of this layer.
    pub fn default_primitives() -> (r: Self)
        ensures
            r == PrimitiveState::spec_default_primitives(),
    {
        PrimitiveState {
            topology: PrimitiveTopology::TriangleList,
            front_face: FrontFace::Ccw,
            cull_mode: Some(Face::Back),
        }
    }
}

/// Two vertex buffer layouts carry the same stride, step mode and
/// attributes.
pub open spec fn layouts_equal(a: VertexBufferLayout, b: VertexBufferLayout) -> bool {
    &&& a.array_stride == b.array_stride
    &&& a.step_mode == b.step_mode
    &&& a.attributes@ =~= b.attributes@
}

/// Copy a slice of vertex buffer layouts into an owned vector.
fn copy_vertex_layouts(src: &[VertexBufferLayout]) -> (r: Vec<VertexBufferLayout>)
    ensures
        r@.len() == src@.len(),
        forall|i: int| 0 <= i < src@.len() ==> layouts_equal(#[trigger] r@[i], src@[i]),
{
    let n = src.len();
    let mut out: Vec<VertexBufferLayout> = Vec::new();
    let mut i: usize = 0;
    while i < n
        invariant
            n == src@.len(),
            i <= n,
            out@.len() == i,
            forall|k: int| 0 <= k < i ==> layouts_equal(#[trigger] out@[k], src@[k]),
        decreases n - i,
    {
        let l = vstd::slice::slice_index_get(src, i);
        out.push(
            VertexBufferLayout {
                array_stride: l.array_stride,
                step_mode: l.step_mode,
                attributes: vstd::slice::slice_to_vec(l.attributes.as_slice()),
            },
        );
        i = i + 1;
    }
    out
}

/// A render pipeline: shader stages, vertex input layout, target formats
/// and bind group layouts, with this layer's fixed primitive, culling and
/// multisampling defaults.
#[derive(Debug)]
pub struct RenderPipeline {
    pub vertex_source: String,
    pub vertex_entry: String,
    pub fragment_source: Option<String>,
    pub fragment_entry: Option<String>,
    pub vertex_layouts: Vec<VertexBufferLayout>,
    pub color_targets: Vec<Option<ColorTargetState>>,
    pub depth_stencil: Option<DepthStencilState>,
    pub bind_group_layouts: Vec<BindGroupLayout>,
    pub primitive: PrimitiveState,
    pub multisample_count: u32,
}

impl RenderPipeline {
    /// Create a render pipeline from shader source. The vertex entry point
    /// is `vs_main` and the fragment entry point, when a fragment shader is
    /// given, is `fs_main`; primitive assembly, culling and multisampling
    /// use this layer's fixed defaults.
    pub fn new(
        _context: &GpuContext,
        vertex_shader: &str,
        fragment_shader: Option<&str>,
        vertex_layouts: &[VertexBufferLayout],
        color_targets: &[Option<ColorTargetState>],
        depth_stencil: Option<DepthStencilState>,
        bind_group_layouts: Vec<BindGroupLayout>,
        _label: Option<&str>,
    ) -> (r: Result<Self, GeepuError>)
        ensures
            r matches Ok(p) ==> {
                &&& p.vertex_source@ == vertex_shader@
                &&& p.vertex_entry@ == "vs_main"@
                &&& match (p.fragment_source, fragment_shader) {
                    (Some(s), Some(f)) => s@ == f@,
                    (None, None) => true,
                    _ => false,
                }
                &&& p.fragment_entry is Some <==> fragment_shader is Some
                &&& p.fragment_entry matches Some(e) ==> e@ == "fs_main"@
                &&& p.vertex_layouts@.len() == vertex_layouts@.len()
                &&& forall|i: int|
                    0 <= i < vertex_layouts@.len() ==> layouts_equal(
                        #[trigger] p.vertex_layouts@[i],
                        vertex_layouts@[i],
                    )
                &&& p.color_targets@ =~= color_targets@
                &&& p.depth_stencil == depth_stencil
                &&& p.bind_group_layouts == bind_group_layouts
                &&& p.primitive == PrimitiveState::spec_default_primitives()
                &&& p.multisample_count == 1
            },
            r is Ok,
    {
        let fragment_source = match fragment_shader {
            Some(f) => Some(f.to_owned()),
            None => None,
        };
        let fragment_entry = match fragment_shader {
            Some(_) => Some("fs_main".to_owned()),
            None => None,
        };
        Ok(
            RenderPipeline {
                vertex_source: vertex_shader.to_owned(),
                vertex_entry: "vs_main".to_owned(),
                fragment_source,
                fragment_entry,
                vertex_layouts: copy_vertex_layouts(vertex_layouts),
                color_targets: vstd::slice::slice_to_vec(color_targets),
                depth_stencil,
                bind_group_layouts,
                primitive: PrimitiveState::default_primitives(),
                multisample_count: 1,
            },
        )
    }

    /// Create a simple render pipeline: one color target of the surface's
    /// format with replace blending, no depth buffer, no bind group layouts.
    pub fn simple(
        context: &GpuContext,
        vertex_shader: &str,
        fragment_shader: &str,
        vertex_layouts: &[VertexBufferLayout],
        surface_format: TextureFormat,
        label: Option<&str>,
    ) -> (r: Result<Self, GeepuError>)
        ensures
            r is Ok,
            r matches Ok(p) ==> {
                &&& p.vertex_source@ == vertex_shader@
                &&& p.vertex_entry@ == "vs_main"@
                &&& p.fragment_source matches Some(s) && s@ == fragment_shader@
                &&& p.fragment_entry matches Some(e) && e@ == "fs_main"@
                &&& p.vertex_layouts@.len() == vertex_layouts@.len()
                &&& forall|i: int|
                    0 <= i < vertex_layouts@.len() ==> layouts_equal(
                        #[trigger] p.vertex_layouts@[i],
                        vertex_layouts@[i],
                    )
                &&& p.color_targets@.len() == 1
                &&& p.color_targets@[0] == Some(ColorTargetState {
                    format: surface_format,
                    blend: Some(BlendState::Replace),
                    write_mask: ColorWrites { r: true, g: true, b: true, a: true },
                })
                &&& p.depth_stencil is None
                &&& p.bind_group_layouts@.len() == 0
                &&& p.primitive == PrimitiveState::spec_default_primitives()
                &&& p.multisample_count == 1
            },
    {
        let mut color_targets: Vec<Option<ColorTargetState>> = Vec::new();
        color_targets.push(
            Some(
                ColorTargetState {
                    format: surface_format,
                    blend: Some(BlendState::Replace),
                    write_mask: ColorWrites::all(),
                },
            ),
        );
        Self::new(
            context,
            vertex_shader,
            Some(fragment_shader),
            vertex_layouts,
            color_targets.as_slice(),
            None,
            Vec::new(),
            label,
        )
    }
}

/// A compute pipeline assembled from source, with the `cs_main` entry
/// point and the bind group layouts it was created with.
#[derive(Debug)]
pub struct ComputePipeline {
    pub source: String,
    pub entry_point: String,
    pub bind_group_layouts: Vec<BindGroupLayout>,
}

impl ComputePipeline {
    /// Create a compute pipeline from shader source.
    pub fn new(
        _context: &GpuContext,
        shader_source: &str,
        bind_group_layouts: Vec<BindGroupLayout>,
        _label: Option<&str>,
    ) -> (r: Result<Self, GeepuError>)
        ensures
            r is Ok,
            r matches Ok(p) ==> {
                &&& p.source@ == shader_source@
                &&& p.entry_point@ == "cs_main"@
                &&& p.bind_group_layouts == bind_group_layouts
            },
    {
        Ok(
            ComputePipeline {
                source: shader_source.to_owned(),
                entry_point: "cs_main".to_owned(),
                bind_group_layouts,
            },
        )
    }
}

/// A binding declaration bundled with its visibility, for callers that
/// assemble layouts from plain data.
#[derive(Debug, Clone, Copy, PartialEq, Eq, Structural)]
pub enum BindingType {
    UniformBuffer(ShaderStages),
    StorageBuffer { visibility: ShaderStages, read_only: bool },
    Texture {
        visibility: ShaderStages,
        sample_type: TextureSampleType,
        view_dimension: TextureViewDimension,
        multisampled: bool,
    },
    Sampler { visibility: ShaderStages, sampler_type: SamplerBindingType },
}

/// A render pipeline together with the bind group its builder assembled.
#[derive(Debug)]
pub struct SimpleRenderPipeline {
    pub pipeline: RenderPipeline,
    pub bind_group: BindGroup,
}

/// The layout entry the simple pipeline assigns at position `p` in its
/// uniform block: binding `p`, visible to vertex and fragment stages.
pub open spec fn simple_uniform_layout_entry(p: int) -> BindGroupLayoutEntry {
    BindGroupLayoutEntry {
        binding: p as u32,
        visibility: ShaderStages { vertex: true, fragment: true, compute: false },
        ty: BindingKind::UniformBuffer,
    }
}

/// The layout entry the simple pipeline assigns at position `p` in its
/// texture block: binding `p`, fragment-only, filterable 2D float texture.
pub open spec fn simple_texture_layout_entry(p: int) -> BindGroupLayoutEntry {
    BindGroupLayoutEntry {
        binding: p as u32,
        visibility: ShaderStages { vertex: false, fragment: true, compute: false },
        ty: BindingKind::Texture {
            sample_type: TextureSampleType::Float { filterable: true },
            view_dimension: TextureViewDimension::D2,
            multisampled: false,
        },
    }
}

/// The layout entry the simple pipeline assigns at position `p` in its
/// sampler block: binding `p`, fragment-only, filtering sampler.
pub open spec fn simple_sampler_layout_entry(p: int) -> BindGroupLayoutEntry {
    BindGroupLayoutEntry {
        binding: p as u32,
        visibility: ShaderStages { vertex: false, fragment: true, compute: false },
        ty: BindingKind::Sampler(SamplerBindingType::Filtering),
    }
}

/// The simple pipeline's layout: `u` uniform bindings `0 .. u-1` (vertex
/// and fragment), then `t` texture bindings `u .. u+t-1` (fragment-only),
/// then `t` sampler bindings `u+t .. u+2t-1` (fragment-only), one sampler
/// per texture, paired by position.
pub open spec fn simple_layout_entries(u: int, t: int, ls: Seq<BindGroupLayoutEntry>) -> bool {
    &&& ls.len() == u + 2 * t
    &&& forall|p: int| 0 <= p < u ==> (#[trigger] ls[p]) == simple_uniform_layout_entry(p)
    &&& forall|p: int| u <= p < u + t ==> (#[trigger] ls[p]) == simple_texture_layout_entry(p)
    &&& forall|p: int|
        u + t <= p < u + 2 * t ==> (#[trigger] ls[p]) == simple_sampler_layout_entry(p)
}

/// The simple pipeline's bind group: the given uniform buffers at bindings
/// `0 .. u-1`, texture views at `u .. u+t-1`, samplers at `u+t .. u+2t-1`.
pub open spec fn simple_group_entries(uniforms: Seq<Buffer>, t: int, gs: Seq<BindGroupEntry>) -> bool {
    let u = uniforms.len() as int;
    &&& gs.len() == u + 2 * t
    &&& forall|p: int|
        0 <= p < u ==> (#[trigger] gs[p]) == BindGroupEntry {
            binding: p as u32,
            resource: BoundResource::Buffer { buffer: uniforms[p], offset: 0, size: None },
        }
    &&& forall|p: int|
        u <= p < u + t ==> (#[trigger] gs[p]) == BindGroupEntry {
            binding: p as u32,
            resource: BoundResource::TextureView,
        }
    &&& forall|p: int|
        u + t <= p < u + 2 * t ==> (#[trigger] gs[p]) == BindGroupEntry {
            binding: p as u32,
            resource: BoundResource::Sampler,
        }
}

/// A bind group built by the simple pipeline's fixed assignment satisfies
/// the layout built by the same assignment.
pub proof fn lemma_simple_bindings_match(
    uniforms: Seq<Buffer>,
    t: int,
    ls: Seq<BindGroupLayoutEntry>,
    gs: Seq<BindGroupEntry>,
)
    requires
        t >= 0,
        uniforms.len() + 2 * t <= u32::MAX,
        simple_layout_entries(uniforms.len() as int, t, ls),
        simple_group_entries(uniforms, t, gs),
    ensures
        group_matches_layout(ls, gs),
{
    let u = uniforms.len() as int;
    assert forall|i: int, j: int| 0 <= i < j < ls.len() implies ls[i].binding != ls[j].binding by {
        assert(ls[i].binding == i as u32);
        assert(ls[j].binding == j as u32);
    }
    assert forall|i: int, j: int| 0 <= i < j < gs.len() implies gs[i].binding != gs[j].binding by {
        assert(gs[i].binding == i as u32);
        assert(gs[j].binding == j as u32);
    }
    assert forall|i: int| 0 <= i < ls.len() implies some_entry_matches(gs, #[trigger] ls[i]) by {
        assert(gs[i].binding == ls[i].binding && kind_accepts(ls[i].ty, gs[i].resource));
    }
}

/// Builder for a render pipeline with automatic resource bindings: uniform
/// buffers first, then textures, then one sampler per texture.
#[derive(Debug)]
pub struct PipelineBuilder<'a> {
    pub context: &'a GpuContext,
    pub vs_src: &'a str,
    pub fs_src: Option<&'a str>,
    pub layouts: &'a [VertexBufferLayout],
    pub uniforms: Vec<Buffer>,
    pub textures: Vec<Texture>,
    pub label: Option<&'a str>,
}

impl<'a> PipelineBuilder<'a> {
    /// Create a new pipeline builder.
    pub fn new(
        context: &'a GpuContext,
        vs_src: &'a str,
        fs_src: &'a str,
        layouts: &'a [VertexBufferLayout],
    ) -> (r: Self)
        ensures
            r.vs_src@ == vs_src@,
            r.fs_src matches Some(f) && f@ == fs_src@,
            r.layouts@ =~= layouts@,
            r.uniforms@ =~= Seq::<Buffer>::empty(),
            r.textures@ =~= Seq::<Texture>::empty(),
            r.label is None,
    {
        PipelineBuilder {
            context,
            vs_src,
            fs_src: Some(fs_src),
            layouts,
            uniforms: Vec::new(),
            textures: Vec::new(),
            label: None,
        }
    }

    /// Add a uniform buffer; its binding index is assigned automatically.
    pub fn uniform<T>(self, buffer: &TypedBuffer<T>) -> (r: Self)
        ensures
            r.vs_src@ == self.vs_src@,
            r.fs_src == self.fs_src,
            r.layouts@ =~= self.layouts@,
            r.uniforms@ =~= self.uniforms@.push(buffer.buffer),
            r.textures@ == self.textures@,
            r.label == self.label,
    {
        let mut uniforms = self.uniforms;
        uniforms.push(buffer.buffer);
        PipelineBuilder { uniforms, ..self }
    }

    /// Add a texture; its view and sampler binding indices are assigned
    /// automatically.
    pub fn texture(self, texture: &Texture) -> (r: Self)
        ensures
            r.vs_src@ == self.vs_src@,
            r.fs_src == self.fs_src,
            r.layouts@ =~= self.layouts@,
            r.uniforms@ == self.uniforms@,
            r.textures@ =~= self.textures@.push(*texture),
            r.label == self.label,
    {
        let mut textures = self.textures;
        textures.push(*texture);
        PipelineBuilder { textures, ..self }
    }

    /// Set an optional label for the pipeline and its resources.
    pub fn label(self, label: &'a str) -> (r: Self)
        ensures
            r.vs_src@ == self.vs_src@,
            r.fs_src == self.fs_src,
            r.layouts@ =~= self.layouts@,
            r.uniforms@ == self.uniforms@,
            r.textures@ == self.textures@,
            r.label matches Some(l) && l@ == label@,
    {
        PipelineBuilder { label: Some(label), ..self }
    }

    /// Build a simple pipeline with an automatically assigned bind group:
    /// uniform bindings `0 .. u-1` visible to vertex and fragment stages,
    /// texture bindings `u .. u+t-1` and sampler bindings `u+t .. u+2t-1`
    /// fragment-only. The bind group always satisfies the built layout.
    pub fn build(self, surface_format: TextureFormat) -> (r: Result<
        SimpleRenderPipeline,
        GeepuError,
    >)
        requires
            self.fs_src is Some,
            self.uniforms@.len() + 2 * self.textures@.len() <= u32::MAX,
        ensures
            r is Ok,
            r matches Ok(sp) ==> {
                &&& sp.pipeline.vertex_source@ == self.vs_src@
                &&& match (sp.pipeline.fragment_source, self.fs_src) {
                    (Some(s), Some(f)) => s@ == f@,
                    _ => false,
                }
                &&& sp.pipeline.color_targets@.len() == 1
                &&& sp.pipeline.color_targets@[0] == Some(ColorTargetState {
                    format: surface_format,
                    blend: Some(BlendState::Replace),
                    write_mask: ColorWrites { r: true, g: true, b: true, a: true },
                })
                &&& sp.pipeline.depth_stencil is None
                &&& sp.pipeline.bind_group_layouts@.len() == 1
                &&& simple_layout_entries(
                    self.uniforms@.len() as int,
                    self.textures@.len() as int,
                    sp.pipeline.bind_group_layouts@[0].entries@,
                )
                &&& simple_group_entries(
                    self.uniforms@,
                    self.textures@.len() as int,
                    sp.bind_group.entries@,
                )
                &&& group_matches_layout(
                    sp.pipeline.bind_group_layouts@[0].entries@,
                    sp.bind_group.entries@,
                )
            },
    {
        let ucount = self.uniforms.len();
        let tcount = self.textures.len();
        let uni_vis = ShaderStages::vertex_fragment();
        let tex_vis = ShaderStages::fragment();

        let mut layout_builder = BindGroupLayoutBuilder::new();
        let mut i: usize = 0;
        while i < ucount
            invariant
                ucount == self.uniforms@.len(),
                tcount == self.textures@.len(),
                ucount + 2 * tcount <= u32::MAX,
                i <= ucount,
                uni_vis == (ShaderStages { vertex: true, fragment: true, compute: false }),
                layout_builder.entries@.len() == i,
                forall|p: int|
                    0 <= p < i ==> (#[trigger] layout_builder.entries@[p])
                        == simple_uniform_layout_entry(p),
            decreases ucount - i,
        {
            layout_builder = layout_builder.uniform_buffer(i as u32, uni_vis);
            i = i + 1;
        }
        let mut i: usize = 0;
        while i < tcount
            invariant
                ucount == self.uniforms@.len(),
                tcount == self.textures@.len(),
                ucount + 2 * tcount <= u32::MAX,
                i <= tcount,
                tex_vis == (ShaderStages { vertex: false, fragment: true, compute: false }),
                layout_builder.entries@.len() == ucount + i,
                forall|p: int|
                    0 <= p < ucount ==> (#[trigger] layout_builder.entries@[p])
                        == simple_uniform_layout_entry(p),
                forall|p: int|
                    ucount <= p < ucount + i ==> (#[trigger] layout_builder.entries@[p])
                        == simple_texture_layout_entry(p),
            decreases tcount - i,
        {
            layout_builder = layout_builder.texture(
                (ucount + i) as u32,
                tex_vis,
                TextureSampleType::Float { filterable: true },
                TextureViewDimension::D2,
                false,
            );
            i = i + 1;
        }
        let mut i: usize = 0;
        while i < tcount
            invariant
                ucount == self.uniforms@.len(),
                tcount == self.textures@.len(),
                ucount + 2 * tcount <= u32::MAX,
                i <= tcount,
                tex_vis == (ShaderStages { vertex: false, fragment: true, compute: false }),
                layout_builder.entries@.len() == ucount + tcount + i,
                forall|p: int|
                    0 <= p < ucount ==> (#[trigger] layout_builder.entries@[p])
                        == simple_uniform_layout_entry(p),
                forall|p: int|
                    ucount <= p < ucount + tcount ==> (#[trigger] layout_builder.entries@[p])
                        == simple_texture_layout_entry(p),
                forall|p: int|
                    ucount + tcount <= p < ucount + tcount + i ==> (
                    #[trigger] layout_builder.entries@[p]) == simple_sampler_layout_entry(p),
            decreases tcount - i,
        {
            layout_builder = layout_builder.sampler(
                (ucount + tcount + i) as u32,
                tex_vis,
                SamplerBindingType::Filtering,
            );
            i = i + 1;
        }
        let bind_layout = layout_builder.build(self.context, self.label);
        assert(simple_layout_entries(ucount as int, tcount as int, bind_layout.entries@));

        let mut group_builder = BindGroupBuilder::new(&bind_layout);
        let mut i: usize = 0;
        while i < ucount
            invariant
                ucount == self.uniforms@.len(),
                tcount == self.textures@.len(),
                ucount + 2 * tcount <= u32::MAX,
                i <= ucount,
                group_builder.layout == &bind_layout,
                group_builder.entries@.len() == i,
                forall|p: int|
                    0 <= p < i ==> (#[trigger] group_builder.entries@[p]) == (BindGroupEntry {
                        binding: p as u32,
                        resource: BoundResource::Buffer {
                            buffer: self.uniforms@[p],
                            offset: 0,
                            size: None,
                        },
                    }),
            decreases ucount - i,
        {
            group_builder = group_builder.buffer(i as u32, &self.uniforms[i]);
            i = i + 1;
        }
        let mut i: usize = 0;
        while i < tcount
            invariant
                ucount == self.uniforms@.len(),
                tcount == self.textures@.len(),
                ucount + 2 * tcount <= u32::MAX,
                i <= tcount,
                group_builder.layout == &bind_layout,
                group_builder.entries@.len() == ucount + i,
                forall|p: int|
                    0 <= p < ucount ==> (#[trigger] group_builder.entries@[p]) == (BindGroupEntry {
                        binding: p as u32,
                        resource: BoundResource::Buffer {
                            buffer: self.uniforms@[p],
                            offset: 0,
                            size: None,
                        },
                    }),
                forall|p: int|
                    ucount <= p < ucount + i ==> (#[trigger] group_builder.entries@[p])
                        == (BindGroupEntry { binding: p as u32, resource: BoundResource::TextureView }),
            decreases tcount - i,
        {
            group_builder = group_builder.texture_view((ucount + i) as u32, &self.textures[i]);
            i = i + 1;
        }
        let mut i: usize = 0;
        while i < tcount
            invariant
                ucount == self.uniforms@.len(),
                tcount == self.textures@.len(),
                ucount + 2 * tcount <= u32::MAX,
                i <= tcount,
                group_builder.layout == &bind_layout,
                group_builder.entries@.len() == ucount + tcount + i,
                forall|p: int|
                    0 <= p < ucount ==> (#[trigger] group_builder.entries@[p]) == (BindGroupEntry {
                        binding: p as u32,
                        resource: BoundResource::Buffer {
                            buffer: self.uniforms@[p],
                            offset: 0,
                            size: None,
                        },
                    }),
                forall|p: int|
                    ucount <= p < ucount + tcount ==> (#[trigger] group_builder.entries@[p])
                        == (BindGroupEntry { binding: p as u32, resource: BoundResource::TextureView }),
                forall|p: int|
                    ucount + tcount <= p < ucount + tcount + i ==> (
                    #[trigger] group_builder.entries@[p]) == (BindGroupEntry {
                        binding: p as u32,
                        resource: BoundResource::Sampler,
                    }),
            decreases tcount - i,
        {
            group_builder = group_builder.sampler((ucount + tcount + i) as u32, &self.textures[i]);
            i = i + 1;
        }
        assert(simple_group_entries(self.uniforms@, tcount as int, group_builder.entries@));
        proof {
            lemma_simple_bindings_match(
                self.uniforms@,
                tcount as int,
                bind_layout.entries@,
                group_builder.entries@,
            );
        }
        let bind_group = match group_builder.build(self.context, self.label) {
            Ok(g) => g,
            Err(e) => {
                proof {
                    assert(false);
                }
                return Err(e);
            },
        };

        let fs = match self.fs_src {
            Some(f) => f,
            None => {
                proof {
                    assert(false);
                }
                return Err(GeepuError::Generic("missing fragment shader".to_owned()));
            },
        };
        let mut color_targets: Vec<Option<ColorTargetState>> = Vec::new();
        color_targets.push(
            Some(
                ColorTargetState {
                    format: surface_format,
                    blend: Some(BlendState::Replace),
                    write_mask: ColorWrites::all(),
                },
            ),
        );
        let mut bind_group_layouts: Vec<BindGroupLayout> = Vec::new();
        bind_group_layouts.push(bind_layout);
        let pipeline = match RenderPipeline::new(
            self.context,
            self.vs_src,
            Some(fs),
            self.layouts,
            color_targets.as_slice(),
            None,
            bind_group_layouts,
            self.label,
        ) {
            Ok(p) => p,
            Err(e) => {
                proof {
                    assert(false);
                }
                return Err(e);
            },
        };
        Ok(SimpleRenderPipeline { pipeline, bind_group })
    }
}

} // verus!

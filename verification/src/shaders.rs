//! Shader management: a name-keyed registry of shader modules, partitioned
//! by stage, plus the stage-annotated compute pipeline.

pub mod default_shaders;

use vstd::prelude::*;

use crate::buffer::{VertexBufferLayout, VertexFormat, VertexStepMode};
use crate::compute::{dispatch_count, spec_dispatch_count};
use crate::context::GpuContext;
use crate::error::GeepuError;
use crate::pipeline::BindGroupLayout;
use crate::registry::NamedStore;

verus! {

/// A compiled shader module, as the model sees it: its source text.
#[derive(Debug, Clone)]
pub struct ShaderModule {
    pub source: String,
}

/// Shader stage enumeration.
#[derive(Debug, Clone, Copy, PartialEq, Eq, Structural)]
pub enum ShaderType {
    Vertex,
    Fragment,
    Compute,
}

/// Shader manager: modules are keyed by name within each stage, so the
/// same name may be reused across stages without collision, and a lookup
/// only finds modules loaded for the requested stage.
#[derive(Debug)]
pub struct ShaderManager {
    pub vertex_shaders: NamedStore<ShaderModule>,
    pub fragment_shaders: NamedStore<ShaderModule>,
    pub compute_shaders: NamedStore<ShaderModule>,
}

impl ShaderManager {
    /// All three stage registries are unambiguous.
    pub open spec fn wf(&self) -> bool {
        &&& self.vertex_shaders.wf()
        &&& self.fragment_shaders.wf()
        &&& self.compute_shaders.wf()
    }

    /// An empty manager.
    pub fn new() -> (r: Self)
        ensures
            r.wf(),
            r.vertex_shaders@ =~= Map::<Seq<char>, ShaderModule>::empty(),
            r.fragment_shaders@ =~= Map::<Seq<char>, ShaderModule>::empty(),
            r.compute_shaders@ =~= Map::<Seq<char>, ShaderModule>::empty(),
    {
        ShaderManager {
            vertex_shaders: NamedStore::new(),
            fragment_shaders: NamedStore::new(),
            compute_shaders: NamedStore::new(),
        }
    }

    /// Load a vertex shader from source, replacing any module previously
    /// loaded under the same name for the vertex stage. The other stages'
    /// registries are untouched.
    pub fn load_vertex_shader(
        &mut self,
        _context: &GpuContext,
        name: &str,
        source: &str,
    ) -> (r: Result<(), GeepuError>)
        requires
            old(self).wf(),
        ensures
            r is Ok,
            final(self).wf(),
            final(self).vertex_shaders@.contains_key(name@),
            final(self).vertex_shaders@[name@].source@ == source@,
            final(self).vertex_shaders@ =~= old(self).vertex_shaders@.insert(
                name@,
                final(self).vertex_shaders@[name@],
            ),
            final(self).fragment_shaders == old(self).fragment_shaders,
            final(self).compute_shaders == old(self).compute_shaders,
    {
        let module = ShaderModule { source: source.to_owned() };
        self.vertex_shaders.insert(name, module);
        Ok(())
    }

    /// Load a fragment shader from source; the other stages' registries
    /// are untouched.
    pub fn load_fragment_shader(
        &mut self,
        _context: &GpuContext,
        name: &str,
        source: &str,
    ) -> (r: Result<(), GeepuError>)
        requires
            old(self).wf(),
        ensures
            r is Ok,
            final(self).wf(),
            final(self).fragment_shaders@.contains_key(name@),
            final(self).fragment_shaders@[name@].source@ == source@,
            final(self).fragment_shaders@ =~= old(self).fragment_shaders@.insert(
                name@,
                final(self).fragment_shaders@[name@],
            ),
            final(self).vertex_shaders == old(self).vertex_shaders,
            final(self).compute_shaders == old(self).compute_shaders,
    {
        let module = ShaderModule { source: source.to_owned() };
        self.fragment_shaders.insert(name, module);
        Ok(())
    }

    /// Load a compute shader from source; the other stages' registries
    /// are untouched.
    pub fn load_compute_shader(
        &mut self,
        _context: &GpuContext,
        name: &str,
        source: &str,
    ) -> (r: Result<(), GeepuError>)
        requires
            old(self).wf(),
        ensures
            r is Ok,
            final(self).wf(),
            final(self).compute_shaders@.contains_key(name@),
            final(self).compute_shaders@[name@].source@ == source@,
            final(self).compute_shaders@ =~= old(self).compute_shaders@.insert(
                name@,
                final(self).compute_shaders@[name@],
            ),
            final(self).vertex_shaders == old(self).vertex_shaders,
            final(self).fragment_shaders == old(self).fragment_shaders,
    {
        let module = ShaderModule { source: source.to_owned() };
        self.compute_shaders.insert(name, module);
        Ok(())
    }

    /// Get a vertex-stage module by name: succeeds exactly when a module
    /// was loaded under that name for the vertex stage.
    pub fn get_vertex_shader(&self, name: &str) -> (r: Result<&ShaderModule, GeepuError>)
        requires
            self.wf(),
        ensures
            match r {
                Ok(m) => self.vertex_shaders@.contains_key(name@) && *m
                    == self.vertex_shaders@[name@],
                Err(e) => !self.vertex_shaders@.contains_key(name@) && e matches
                    GeepuError::ResourceNotFound(_),
            },
    {
        match self.vertex_shaders.get(name) {
            Some(m) => Ok(m),
            None => Err(GeepuError::ResourceNotFound(name.to_owned())),
        }
    }

    /// Get a fragment-stage module by name: succeeds exactly when a module
    /// was loaded under that name for the fragment stage.
    pub fn get_fragment_shader(&self, name: &str) -> (r: Result<&ShaderModule, GeepuError>)
        requires
            self.wf(),
        ensures
            match r {
                Ok(m) => self.fragment_shaders@.contains_key(name@) && *m
                    == self.fragment_shaders@[name@],
                Err(e) => !self.fragment_shaders@.contains_key(name@) && e matches
                    GeepuError::ResourceNotFound(_),
            },
    {
        match self.fragment_shaders.get(name) {
            Some(m) => Ok(m),
            None => Err(GeepuError::ResourceNotFound(name.to_owned())),
        }
    }

    /// Get a compute-stage module by name: succeeds exactly when a module
    /// was loaded under that name for the compute stage.
    pub fn get_compute_shader(&self, name: &str) -> (r: Result<&ShaderModule, GeepuError>)
        requires
            self.wf(),
        ensures
            match r {
                Ok(m) => self.compute_shaders@.contains_key(name@) && *m
                    == self.compute_shaders@[name@],
                Err(e) => !self.compute_shaders@.contains_key(name@) && e matches
                    GeepuError::ResourceNotFound(_),
            },
    {
        match self.compute_shaders.get(name) {
            Some(m) => Ok(m),
            None => Err(GeepuError::ResourceNotFound(name.to_owned())),
        }
    }
}

/// The shader registry's namespaces are stage-qualified: loading a module
/// under a name for the compute stage neither adds nor changes anything
/// under the vertex or fragment stage, so a vertex-stage lookup of that
/// name fails unless a vertex module was loaded under it.
pub proof fn lemma_stage_namespaces_independent(
    before: ShaderManager,
    after: ShaderManager,
    name: Seq<char>,
    module: ShaderModule,
)
    requires
        after.vertex_shaders == before.vertex_shaders,
        after.fragment_shaders == before.fragment_shaders,
        after.compute_shaders@ =~= before.compute_shaders@.insert(name, module),
    ensures
        after.vertex_shaders@.contains_key(name) <==> before.vertex_shaders@.contains_key(name),
        after.fragment_shaders@.contains_key(name) <==> before.fragment_shaders@.contains_key(
            name,
        ),
        after.compute_shaders@.contains_key(name),
{
}

/// Compute pipeline wrapper, retaining the entry point and the workgroup
/// size it was declared with for later dispatch-size calculation.
#[derive(Debug)]
pub struct ComputePipeline {
    pub entry_point: String,
    pub bind_group_layouts: Vec<BindGroupLayout>,
    pub workgroup_size: (u32, u32, u32),
}

/// Copy borrowed bind group layouts into an owned, identically ordered
/// list.
fn copy_borrowed_layouts(layouts: &[&BindGroupLayout]) -> (r: Vec<BindGroupLayout>)
    ensures
        r@.len() == layouts@.len(),
        forall|i: int|
            0 <= i < layouts@.len() ==> (#[trigger] r@[i]).entries@ =~= layouts@[i].entries@,
{
    let n = layouts.len();
    let mut out: Vec<BindGroupLayout> = Vec::new();
    let mut i: usize = 0;
    while i < n
        invariant
            n == layouts@.len(),
            i <= n,
            out@.len() == i,
            forall|k: int| 0 <= k < i ==> (#[trigger] out@[k]).entries@ =~= layouts@[k].entries@,
        decreases n - i,
    {
        let l = *vstd::slice::slice_index_get(layouts, i);
        out.push(BindGroupLayout { entries: vstd::slice::slice_to_vec(l.entries.as_slice()) });
        i = i + 1;
    }
    out
}

impl ComputePipeline {
    /// Create a new compute pipeline from a compiled module, retaining the
    /// bind group layouts it was created over, in order.
    pub fn new(
        _context: &GpuContext,
        _shader: &ShaderModule,
        entry_point: &str,
        bind_group_layouts: &[&BindGroupLayout],
        workgroup_size: (u32, u32, u32),
        _label: Option<&str>,
    ) -> (r: Self)
        ensures
            r.entry_point@ == entry_point@,
            r.workgroup_size == workgroup_size,
            r.bind_group_layouts@.len() == bind_group_layouts@.len(),
            forall|i: int|
                0 <= i < bind_group_layouts@.len() ==> (#[trigger] r.bind_group_layouts@[i]).entries@
                    =~= bind_group_layouts@[i].entries@,
    {
        ComputePipeline {
            entry_point: entry_point.to_owned(),
            bind_group_layouts: copy_borrowed_layouts(bind_group_layouts),
            workgroup_size,
        }
    }

    /// The dispatch size covering `problem_size`, by ceiling division per
    /// axis against the pipeline's workgroup size.
    pub fn optimal_dispatch_size(&self, problem_size: (u32, u32, u32)) -> (r: (u32, u32, u32))
        requires
            self.workgroup_size.0 > 0,
            self.workgroup_size.1 > 0,
            self.workgroup_size.2 > 0,
        ensures
            r.0 == spec_dispatch_count(problem_size.0, self.workgroup_size.0),
            r.1 == spec_dispatch_count(problem_size.1, self.workgroup_size.1),
            r.2 == spec_dispatch_count(problem_size.2, self.workgroup_size.2),
    {
        (
            dispatch_count(problem_size.0, self.workgroup_size.0),
            dispatch_count(problem_size.1, self.workgroup_size.1),
            dispatch_count(problem_size.2, self.workgroup_size.2),
        )
    }
}

/// Vertex attribute helper.
#[derive(Debug, Clone, Copy, PartialEq, Eq, Structural)]
pub struct VertexAttribute {
    pub offset: u64,
    pub shader_location: u32,
    pub format: VertexFormat,
}

/// Vertex buffer layout builder: attributes are packed back to back, so
/// offsets are assigned consecutively and never overlap.
#[derive(Debug, Clone, PartialEq, Eq)]
pub struct VertexBufferLayoutBuilder {
    pub attributes: Vec<VertexAttribute>,
    pub stride: u64,
}

impl VertexBufferLayoutBuilder {
    /// An empty builder.
    pub fn new() -> (r: Self)
        ensures
            r.attributes@ =~= Seq::<VertexAttribute>::empty(),
            r.stride == 0,
    {
        VertexBufferLayoutBuilder { attributes: Vec::new(), stride: 0 }
    }

    /// Add an attribute at the current end of the stride.
    pub fn add_attribute(self, format: VertexFormat, shader_location: u32) -> (r: Self)
        requires
            self.stride + format.spec_size() <= u64::MAX,
        ensures
            r.attributes@ =~= self.attributes@.push(
                VertexAttribute { offset: self.stride, shader_location, format },
            ),
            r.stride == self.stride + format.spec_size(),
    {
        let mut attributes = self.attributes;
        attributes.push(VertexAttribute { offset: self.stride, shader_location, format });
        let stride = self.stride + format.size();
        VertexBufferLayoutBuilder { attributes, stride }
    }

    /// Build the vertex buffer layout, stepping per vertex.
    pub fn build(self) -> (r: VertexBufferLayout)
        ensures
            r.array_stride == self.stride,
            r.step_mode == VertexStepMode::Vertex,
            r.attributes@.len() == self.attributes@.len(),
            forall|i: int|
                0 <= i < self.attributes@.len() ==> (#[trigger] r.attributes@[i])
                    == (crate::buffer::VertexAttribute {
                    offset: self.attributes@[i].offset,
                    shader_location: self.attributes@[i].shader_location,
                    format: self.attributes@[i].format,
                }),
    {
        let n = self.attributes.len();
        let mut attributes: Vec<crate::buffer::VertexAttribute> = Vec::new();
        let mut i: usize = 0;
        while i < n
            invariant
                n == self.attributes@.len(),
                i <= n,
                attributes@.len() == i,
                forall|k: int|
                    0 <= k < i ==> (#[trigger] attributes@[k]) == (crate::buffer::VertexAttribute {
                        offset: self.attributes@[k].offset,
                        shader_location: self.attributes@[k].shader_location,
                        format: self.attributes@[k].format,
                    }),
            decreases n - i,
        {
            let a = self.attributes[i];
            attributes.push(
                crate::buffer::VertexAttribute {
                    offset: a.offset,
                    shader_location: a.shader_location,
                    format: a.format,
                },
            );
            i = i + 1;
        }
        VertexBufferLayout {
            array_stride: self.stride,
            step_mode: VertexStepMode::Vertex,
            attributes,
        }
    }
}

} // verus!

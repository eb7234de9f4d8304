//! Compute pass recording, workgroup-size helpers and compute shader
//! source assembly.

use vstd::prelude::*;
use vstd::string::StringExecFns;

use crate::buffer::TypedBuffer;
use crate::context::{
    queue_plus_submission, Command, CommandEncoder, Extent3d, GpuContext, ImageCopyBuffer,
    ImageCopyTexture, SessionState,
};
use crate::error::GeepuError;
use crate::pipeline::BindGroup;
use crate::shaders::ComputePipeline;

verus! {

/// How many workgroups of `workgroup` elements cover `problem` elements:
/// ceiling division.
pub open spec fn spec_dispatch_count(problem: u32, workgroup: u32) -> int {
    (problem + workgroup - 1) / (workgroup as int)
}

/// Ceiling division of one axis, without overflow.
pub(crate) fn dispatch_count(problem: u32, workgroup: u32) -> (r: u32)
    requires
        workgroup > 0,
    ensures
        r == spec_dispatch_count(problem, workgroup),
{
    let p = problem as u64;
    let w = workgroup as u64;
    let q = (p + w - 1) / w;
    proof {
        let pi = p as int;
        let wi = w as int;
        assert((pi + wi - 1) / wi <= pi || pi == 0) by (nonlinear_arith)
            requires
                wi >= 1,
                pi >= 0,
        ;
        if pi == 0 {
            assert((pi + wi - 1) / wi == 0) by (nonlinear_arith)
                requires
                    wi >= 1,
                    pi == 0,
            ;
        }
    }
    q as u32
}

/// Helper for compute workgroup size calculations.
#[derive(Debug, Clone, Copy, PartialEq, Eq, Structural)]
pub struct WorkgroupSize {
    pub x: u32,
    pub y: u32,
    pub z: u32,
}

impl WorkgroupSize {
    /// An arbitrary three-dimensional workgroup size.
    pub fn new(x: u32, y: u32, z: u32) -> (r: Self)
        ensures
            r == (WorkgroupSize { x, y, z }),
    {
        Self { x, y, z }
    }

    /// A one-dimensional workgroup of `size` invocations.
    pub fn linear(size: u32) -> (r: Self)
        ensures
            r == (WorkgroupSize { x: size, y: 1u32, z: 1u32 }),
    {
        Self { x: size, y: 1, z: 1 }
    }

    /// A square two-dimensional workgroup of `size * size` invocations.
    pub fn square(size: u32) -> (r: Self)
        ensures
            r == (WorkgroupSize { x: size, y: size, z: 1u32 }),
    {
        Self { x: size, y: size, z: 1 }
    }

    /// Number of workgroups needed to cover the given data size, by
    /// ceiling division per axis. Invocations beyond the data size still
    /// run; kernels must guard against out-of-range invocation ids.
    pub fn workgroups_for_size(&self, data_size_x: u32, data_size_y: u32, data_size_z: u32) -> (r:
        (u32, u32, u32))
        requires
            self.x > 0,
            self.y > 0,
            self.z > 0,
        ensures
            r.0 == spec_dispatch_count(data_size_x, self.x),
            r.1 == spec_dispatch_count(data_size_y, self.y),
            r.2 == spec_dispatch_count(data_size_z, self.z),
    {
        (
            dispatch_count(data_size_x, self.x),
            dispatch_count(data_size_y, self.y),
            dispatch_count(data_size_z, self.z),
        )
    }
}

/// An open compute pass, accumulating commands until it is closed back
/// into its recording session.
#[derive(Debug)]
pub struct ComputePass {
    pub ops: Vec<Command>,
    pub label: Option<String>,
}

impl ComputePass {
    /// Describe a new compute pass.
    pub fn new(label: Option<&str>) -> (r: Self)
        ensures
            r.ops@ =~= Seq::<Command>::empty(),
            r.label is Some <==> label is Some,
            match (r.label, label) {
                (Some(a), Some(b)) => a@ == b@,
                (None, None) => true,
                _ => false,
            },
    {
        let label = match label {
            Some(l) => Some(l.to_owned()),
            None => None,
        };
        ComputePass { ops: Vec::new(), label }
    }

    /// Set the compute pipeline.
    pub fn set_pipeline(&mut self, pipeline: &ComputePipeline)
        ensures
            final(self).ops@.len() == old(self).ops@.len() + 1,
            final(self).ops@.subrange(0, old(self).ops@.len() as int) =~= old(self).ops@,
            final(self).ops@.last() matches Command::SetComputePipeline { entry_point: e } && e@
                == pipeline.entry_point@,
            final(self).label == old(self).label,
    {
        self.ops.push(Command::SetComputePipeline { entry_point: pipeline.entry_point.clone() });
    }

    /// Set a bind group.
    pub fn set_bind_group(&mut self, index: u32, _bind_group: &BindGroup, offsets: &[u32])
        ensures
            final(self).ops@.len() == old(self).ops@.len() + 1,
            final(self).ops@.subrange(0, old(self).ops@.len() as int) =~= old(self).ops@,
            final(self).ops@.last() matches Command::SetBindGroup {
                index: i,
                dynamic_offsets: o,
            } && i == index && o@ =~= offsets@,
            final(self).label == old(self).label,
    {
        self.ops.push(
            Command::SetBindGroup { index, dynamic_offsets: vstd::slice::slice_to_vec(offsets) },
        );
    }

    /// Dispatch compute workgroups.
    pub fn dispatch_workgroups(
        &mut self,
        workgroup_count_x: u32,
        workgroup_count_y: u32,
        workgroup_count_z: u32,
    )
        ensures
            final(self).ops@ =~= old(self).ops@.push(
                Command::DispatchWorkgroups {
                    x: workgroup_count_x,
                    y: workgroup_count_y,
                    z: workgroup_count_z,
                },
            ),
            final(self).label == old(self).label,
    {
        self.ops.push(
            Command::DispatchWorkgroups {
                x: workgroup_count_x,
                y: workgroup_count_y,
                z: workgroup_count_z,
            },
        );
    }

    /// Dispatch compute workgroups with counts read from a buffer.
    pub fn dispatch_workgroups_indirect<T>(
        &mut self,
        _indirect_buffer: &TypedBuffer<T>,
        indirect_offset: u64,
    )
        ensures
            final(self).ops@ =~= old(self).ops@.push(
                Command::DispatchWorkgroupsIndirect { offset: indirect_offset },
            ),
            final(self).label == old(self).label,
    {
        self.ops.push(Command::DispatchWorkgroupsIndirect { offset: indirect_offset });
    }
}

/// A compute command recording session. Exactly one pass may be open at a
/// time, and a session that was submitted cannot record or submit again;
/// breaking either rule is an invalid-operation error.
#[derive(Debug)]
pub struct ComputeCommands {
    pub encoder: CommandEncoder,
    pub state: SessionState,
}

impl ComputeCommands {
    /// Start a new recording session.
    pub fn new(_context: &GpuContext, _label: Option<&str>) -> (r: Self)
        ensures
            r.encoder.commands@ =~= Seq::<Command>::empty(),
            r.state == SessionState::Recording,
    {
        ComputeCommands { encoder: CommandEncoder::new(), state: SessionState::Recording }
    }

    /// Open a compute pass. Fails when a pass is already open or the
    /// session was submitted.
    pub fn begin_compute_pass(&mut self, label: Option<&str>) -> (r: Result<
        ComputePass,
        GeepuError,
    >)
        ensures
            r is Ok <==> old(self).state == SessionState::Recording,
            r matches Err(e) ==> e matches GeepuError::InvalidOperation(_) && *final(self) == *old(
                self,
            ),
            r matches Ok(p) ==> {
                &&& final(self).state == SessionState::PassOpen
                &&& final(self).encoder == old(self).encoder
                &&& p.ops@ =~= Seq::<Command>::empty()
                &&& match (p.label, label) {
                    (Some(a), Some(b)) => a@ == b@,
                    (None, None) => true,
                    _ => false,
                }
            },
    {
        match self.state {
            SessionState::Recording => {
                self.state = SessionState::PassOpen;
                Ok(ComputePass::new(label))
            },
            _ => Err(
                GeepuError::InvalidOperation(
                    "a pass is already open or the session was submitted".to_owned(),
                ),
            ),
        }
    }

    /// Close a pass back into the session: its commands are appended to
    /// the encoder between begin-pass and end-pass markers. Fails when no
    /// pass is open.
    pub fn end_compute_pass(&mut self, pass: ComputePass) -> (r: Result<(), GeepuError>)
        ensures
            r is Ok <==> old(self).state == SessionState::PassOpen,
            r matches Err(e) ==> e matches GeepuError::InvalidOperation(_) && *final(self) == *old(
                self,
            ),
            r is Ok ==> {
                &&& final(self).state == SessionState::Recording
                &&& final(self).encoder.commands@ =~= old(self).encoder.commands@ + seq![
                    Command::BeginComputePass { label: pass.label },
                ] + pass.ops@ + seq![Command::EndComputePass]
            },
    {
        match self.state {
            SessionState::PassOpen => {
                self.encoder.commands.push(Command::BeginComputePass { label: pass.label });
                let mut ops = pass.ops;
                self.encoder.commands.append(&mut ops);
                self.encoder.commands.push(Command::EndComputePass);
                self.state = SessionState::Recording;
                Ok(())
            },
            _ => Err(GeepuError::InvalidOperation("no pass is open on this session".to_owned())),
        }
    }

    /// Record a buffer-to-buffer copy. Fails while a pass is open or after
    /// submission.
    pub fn copy_buffer_to_buffer(
        &mut self,
        _source: &crate::buffer::Buffer,
        source_offset: u64,
        _destination: &crate::buffer::Buffer,
        destination_offset: u64,
        copy_size: u64,
    ) -> (r: Result<(), GeepuError>)
        ensures
            r is Ok <==> old(self).state == SessionState::Recording,
            r matches Err(e) ==> e matches GeepuError::InvalidOperation(_) && *final(self) == *old(
                self,
            ),
            r is Ok ==> {
                &&& final(self).state == SessionState::Recording
                &&& final(self).encoder.commands@ =~= old(self).encoder.commands@.push(
                    Command::CopyBufferToBuffer {
                        source_offset,
                        destination_offset,
                        size: copy_size,
                    },
                )
            },
    {
        match self.state {
            SessionState::Recording => {
                self.encoder.commands.push(
                    Command::CopyBufferToBuffer {
                        source_offset,
                        destination_offset,
                        size: copy_size,
                    },
                );
                Ok(())
            },
            _ => Err(
                GeepuError::InvalidOperation(
                    "the session is not recording (a pass is open, or it was submitted)".to_owned(),
                ),
            ),
        }
    }

    /// Record a buffer-to-texture copy. Fails while a pass is open or
    /// after submission.
    pub fn copy_buffer_to_texture(
        &mut self,
        _source: ImageCopyBuffer,
        _destination: ImageCopyTexture,
        copy_size: Extent3d,
    ) -> (r: Result<(), GeepuError>)
        ensures
            r is Ok <==> old(self).state == SessionState::Recording,
            r matches Err(e) ==> e matches GeepuError::InvalidOperation(_) && *final(self) == *old(
                self,
            ),
            r is Ok ==> {
                &&& final(self).state == SessionState::Recording
                &&& final(self).encoder.commands@ =~= old(self).encoder.commands@.push(
                    Command::CopyBufferToTexture {
                        width: copy_size.width,
                        height: copy_size.height,
                    },
                )
            },
    {
        match self.state {
            SessionState::Recording => {
                self.encoder.commands.push(
                    Command::CopyBufferToTexture {
                        width: copy_size.width,
                        height: copy_size.height,
                    },
                );
                Ok(())
            },
            _ => Err(
                GeepuError::InvalidOperation(
                    "the session is not recording (a pass is open, or it was submitted)".to_owned(),
                ),
            ),
        }
    }

    /// Record a texture-to-buffer copy. Fails while a pass is open or
    /// after submission.
    pub fn copy_texture_to_buffer(
        &mut self,
        _source: ImageCopyTexture,
        destination: ImageCopyBuffer,
        copy_size: Extent3d,
    ) -> (r: Result<(), GeepuError>)
        ensures
            r is Ok <==> old(self).state == SessionState::Recording,
            r matches Err(e) ==> e matches GeepuError::InvalidOperation(_) && *final(self) == *old(
                self,
            ),
            r is Ok ==> {
                &&& final(self).state == SessionState::Recording
                &&& final(self).encoder.commands@ =~= old(self).encoder.commands@.push(
                    Command::CopyTextureToBuffer {
                        width: copy_size.width,
                        height: copy_size.height,
                        bytes_per_row: match destination.bytes_per_row {
                            Some(b) => b as u64,
                            None => 0u64,
                        },
                        rows_per_image: match destination.rows_per_image {
                            Some(ro) => ro,
                            None => 0u32,
                        },
                    },
                )
            },
    {
        match self.state {
            SessionState::Recording => {
                let bytes_per_row: u64 = match destination.bytes_per_row {
                    Some(b) => b as u64,
                    None => 0u64,
                };
                let rows_per_image: u32 = match destination.rows_per_image {
                    Some(ro) => ro,
                    None => 0u32,
                };
                self.encoder.commands.push(
                    Command::CopyTextureToBuffer {
                        width: copy_size.width,
                        height: copy_size.height,
                        bytes_per_row,
                        rows_per_image,
                    },
                );
                Ok(())
            },
            _ => Err(
                GeepuError::InvalidOperation(
                    "the session is not recording (a pass is open, or it was submitted)".to_owned(),
                ),
            ),
        }
    }

    /// Record a debug marker. Fails while a pass is open or after
    /// submission.
    pub fn insert_debug_marker(&mut self, label: &str) -> (r: Result<(), GeepuError>)
        ensures
            r is Ok <==> old(self).state == SessionState::Recording,
            r matches Err(e) ==> e matches GeepuError::InvalidOperation(_) && *final(self) == *old(
                self,
            ),
            r is Ok ==> {
                &&& final(self).state == SessionState::Recording
                &&& final(self).encoder.commands@.len() == old(self).encoder.commands@.len() + 1
                &&& final(self).encoder.commands@.subrange(
                    0,
                    old(self).encoder.commands@.len() as int,
                ) =~= old(self).encoder.commands@
                &&& final(self).encoder.commands@.last() matches Command::InsertDebugMarker {
                    label: l,
                } && l@ == label@
            },
    {
        match self.state {
            SessionState::Recording => {
                self.encoder.commands.push(Command::InsertDebugMarker { label: label.to_owned() });
                Ok(())
            },
            _ => Err(
                GeepuError::InvalidOperation(
                    "the session is not recording (a pass is open, or it was submitted)".to_owned(),
                ),
            ),
        }
    }

    /// Open a debug group. Fails while a pass is open or after submission.
    pub fn push_debug_group(&mut self, label: &str) -> (r: Result<(), GeepuError>)
        ensures
            r is Ok <==> old(self).state == SessionState::Recording,
            r matches Err(e) ==> e matches GeepuError::InvalidOperation(_) && *final(self) == *old(
                self,
            ),
            r is Ok ==> {
                &&& final(self).state == SessionState::Recording
                &&& final(self).encoder.commands@.len() == old(self).encoder.commands@.len() + 1
                &&& final(self).encoder.commands@.subrange(
                    0,
                    old(self).encoder.commands@.len() as int,
                ) =~= old(self).encoder.commands@
                &&& final(self).encoder.commands@.last() matches Command::PushDebugGroup {
                    label: l,
                } && l@ == label@
            },
    {
        match self.state {
            SessionState::Recording => {
                self.encoder.commands.push(Command::PushDebugGroup { label: label.to_owned() });
                Ok(())
            },
            _ => Err(
                GeepuError::InvalidOperation(
                    "the session is not recording (a pass is open, or it was submitted)".to_owned(),
                ),
            ),
        }
    }

    /// Close a debug group. Fails while a pass is open or after submission.
    pub fn pop_debug_group(&mut self) -> (r: Result<(), GeepuError>)
        ensures
            r is Ok <==> old(self).state == SessionState::Recording,
            r matches Err(e) ==> e matches GeepuError::InvalidOperation(_) && *final(self) == *old(
                self,
            ),
            r is Ok ==> {
                &&& final(self).state == SessionState::Recording
                &&& final(self).encoder.commands@ =~= old(self).encoder.commands@.push(
                    Command::PopDebugGroup,
                )
            },
    {
        match self.state {
            SessionState::Recording => {
                self.encoder.commands.push(Command::PopDebugGroup);
                Ok(())
            },
            _ => Err(
                GeepuError::InvalidOperation(
                    "the session is not recording (a pass is open, or it was submitted)".to_owned(),
                ),
            ),
        }
    }

    /// Submit the session's commands to the device queue, consuming the
    /// session: a second submission, or a submission while a pass is open,
    /// is an invalid-operation error.
    pub fn submit(&mut self, context: &mut GpuContext) -> (r: Result<(), GeepuError>)
        ensures
            r is Ok <==> old(self).state == SessionState::Recording,
            r matches Err(e) ==> e matches GeepuError::InvalidOperation(_) && *final(self) == *old(
                self,
            ) && *final(context) == *old(context),
            r is Ok ==> {
                &&& final(self).state == SessionState::Submitted
                &&& final(self).encoder.commands@ =~= Seq::<Command>::empty()
                &&& queue_plus_submission(
                    old(context).queue,
                    final(context).queue,
                    old(self).encoder.commands@,
                )
                &&& final(context).surface_config == old(context).surface_config
                &&& final(context).features == old(context).features
            },
    {
        match self.state {
            SessionState::Recording => {
                let mut commands: Vec<Command> = Vec::new();
                core::mem::swap(&mut commands, &mut self.encoder.commands);
                context.queue.submitted.push(crate::context::CommandBuffer { commands });
                self.state = SessionState::Submitted;
                Ok(())
            },
            _ => Err(
                GeepuError::InvalidOperation(
                    "the session cannot be submitted (a pass is open, or it was already submitted)"
                        .to_owned(),
                ),
            ),
        }
    }

    /// The underlying encoder, for advanced usage.
    pub fn encoder(&self) -> (r: &CommandEncoder)
        ensures
            r == self.encoder,
    {
        &self.encoder
    }
}

/// The decimal digit character for `d`.
pub open spec fn spec_dec_digit(d: int) -> char {
    if d == 0 {
        '0'
    } else if d == 1 {
        '1'
    } else if d == 2 {
        '2'
    } else if d == 3 {
        '3'
    } else if d == 4 {
        '4'
    } else if d == 5 {
        '5'
    } else if d == 6 {
        '6'
    } else if d == 7 {
        '7'
    } else if d == 8 {
        '8'
    } else {
        '9'
    }
}

/// The decimal rendering of a non-negative number, most significant digit
/// first.
pub open spec fn spec_dec(n: int) -> Seq<char>
    decreases n,
{
    if n < 10 {
        seq![spec_dec_digit(n)]
    } else {
        spec_dec(n / 10) + seq![spec_dec_digit(n % 10)]
    }
}

/// The decimal digit character for `d`, as a one-character string.
fn dec_digit_str(d: u32) -> (r: &'static str)
    requires
        d < 10,
    ensures
        r@ =~= seq![spec_dec_digit(d as int)],
{
    proof {
        reveal_strlit("0");
        reveal_strlit("1");
        reveal_strlit("2");
        reveal_strlit("3");
        reveal_strlit("4");
        reveal_strlit("5");
        reveal_strlit("6");
        reveal_strlit("7");
        reveal_strlit("8");
        reveal_strlit("9");
    }
    match d {
        0 => "0",
        1 => "1",
        2 => "2",
        3 => "3",
        4 => "4",
        5 => "5",
        6 => "6",
        7 => "7",
        8 => "8",
        _ => "9",
    }
}

/// Render `n` in decimal.
fn u32_to_decimal(n: u32) -> (r: String)
    ensures
        r@ =~= spec_dec(n as int),
    decreases n,
{
    if n < 10 {
        dec_digit_str(n).to_owned()
    } else {
        let mut s = u32_to_decimal(n / 10);
        s.append(dec_digit_str(n % 10));
        s
    }
}

/// The source snippets pasted above the entry function, each followed by
/// a newline.
pub open spec fn spec_joined_snippets(incs: Seq<String>) -> Seq<char>
    decreases incs.len(),
{
    if incs.len() == 0 {
        Seq::empty()
    } else {
        spec_joined_snippets(incs.drop_last()) + incs.last()@ + "\n"@
    }
}

/// The shader source `build_shader` assembles: the pasted snippets, the
/// workgroup-size attribute, the optional workgroup-local array, and the
/// entry function wrapped around the main code.
pub open spec fn spec_built_shader(
    snippets: Seq<String>,
    wg: WorkgroupSize,
    local: Option<u32>,
    main_code: Seq<char>,
) -> Seq<char> {
    spec_joined_snippets(snippets) + "@workgroup_size("@ + spec_dec(wg.x as int) + ", "@ + spec_dec(
        wg.y as int,
    ) + ", "@ + spec_dec(wg.z as int) + ")\n"@ + (match local {
        Some(sz) => "var<workgroup> local_memory: array<u32, "@ + spec_dec(sz as int) + ">;\n\n"@,
        None => Seq::empty(),
    }) + "@compute\nfn cs_main(@builtin(global_invocation_id) global_id: vec3<u32>) {\n"@
        + main_code + "\n}"@
}

/// Compute shader builder for common patterns.
#[derive(Debug)]
pub struct ComputeShaderBuilder {
    pub workgroup_size: WorkgroupSize,
    pub local_memory_size: Option<u32>,
    pub snippets: Vec<String>,
}

impl ComputeShaderBuilder {
    /// A builder with a 64-invocation linear workgroup, no local memory
    /// and no source snippets.
    pub fn new() -> (r: Self)
        ensures
            r.workgroup_size == (WorkgroupSize { x: 64u32, y: 1u32, z: 1u32 }),
            r.local_memory_size is None,
            r.snippets@ =~= Seq::<String>::empty(),
    {
        ComputeShaderBuilder {
            workgroup_size: WorkgroupSize::new(64, 1, 1),
            local_memory_size: None,
            snippets: Vec::new(),
        }
    }

    /// Set the workgroup size.
    pub fn workgroup_size(self, size: WorkgroupSize) -> (r: Self)
        ensures
            r.workgroup_size == size,
            r.local_memory_size == self.local_memory_size,
            r.snippets@ == self.snippets@,
    {
        ComputeShaderBuilder { workgroup_size: size, ..self }
    }

    /// Request a workgroup-local scratch array of `size` words.
    pub fn local_memory(self, size: u32) -> (r: Self)
        ensures
            r.workgroup_size == self.workgroup_size,
            r.local_memory_size == Some(size),
            r.snippets@ == self.snippets@,
    {
        ComputeShaderBuilder { local_memory_size: Some(size), ..self }
    }

    /// Add a source snippet pasted above the entry function.
    pub fn snippet(self, code: &str) -> (r: Self)
        ensures
            r.workgroup_size == self.workgroup_size,
            r.local_memory_size == self.local_memory_size,
            r.snippets@.len() == self.snippets@.len() + 1,
            r.snippets@.subrange(0, self.snippets@.len() as int) =~= self.snippets@,
            r.snippets@.last()@ == code@,
    {
        let mut snippets = self.snippets;
        snippets.push(code.to_owned());
        ComputeShaderBuilder { snippets, ..self }
    }

    /// Generate the shader source around `main_code`.
    pub fn build_shader(&self, main_code: &str) -> (r: String)
        ensures
            r@ =~= spec_built_shader(
                self.snippets@,
                self.workgroup_size,
                self.local_memory_size,
                main_code@,
            ),
    {
        let mut shader = String::new();
        let n = self.snippets.len();
        let mut i: usize = 0;
        while i < n
            invariant
                n == self.snippets@.len(),
                i <= n,
                shader@ =~= spec_joined_snippets(self.snippets@.subrange(0, i as int)),
            decreases n - i,
        {
            shader.append(self.snippets[i].as_str());
            shader.append("\n");
            proof {
                let pre = self.snippets@.subrange(0, i as int);
                let cur = self.snippets@.subrange(0, i + 1);
                assert(cur.drop_last() =~= pre);
                assert(cur.last() == self.snippets@[i as int]);
            }
            i = i + 1;
        }
        proof {
            assert(self.snippets@.subrange(0, n as int) =~= self.snippets@);
        }
        shader.append("@workgroup_size(");
        shader.append(u32_to_decimal(self.workgroup_size.x).as_str());
        shader.append(", ");
        shader.append(u32_to_decimal(self.workgroup_size.y).as_str());
        shader.append(", ");
        shader.append(u32_to_decimal(self.workgroup_size.z).as_str());
        shader.append(")\n");
        match self.local_memory_size {
            Some(size) => {
                shader.append("var<workgroup> local_memory: array<u32, ");
                shader.append(u32_to_decimal(size).as_str());
                shader.append(">;\n\n");
            },
            None => {},
        }
        shader.append("@compute\nfn cs_main(@builtin(global_invocation_id) global_id: vec3<u32>) {\n");
        shader.append(main_code);
        shader.append("\n}");
        shader
    }
}

impl Default for ComputeShaderBuilder {
    fn default() -> (r: Self)
        ensures
            r.workgroup_size == (WorkgroupSize { x: 64u32, y: 1u32, z: 1u32 }),
            r.local_memory_size is None,
            r.snippets@ =~= Seq::<String>::empty(),
    {
        Self::new()
    }
}

} // verus!

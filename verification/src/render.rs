//! Render pass recording: passes, the recording session state machine,
//! render targets and attachment helpers.

use vstd::prelude::*;

use crate::buffer::{Buffer, TypedBuffer};
use crate::context::{
    queue_plus_submission, Color, Command, CommandEncoder, Extent3d, GpuContext, ImageCopyBuffer,
    ImageCopyTexture, IndexFormat, SessionState,
};
use crate::error::GeepuError;
use crate::pipeline::{BindGroup, RenderPipeline};
use crate::texture::{Texture, TextureFormat};

verus! {

/// What happens to an attachment's contents when a pass begins.
#[derive(Debug, Clone, Copy, PartialEq, Eq, Structural)]
pub enum LoadOp {
    Clear(Color),
    Load,
}

/// What happens to an attachment's contents when a pass ends.
#[derive(Debug, Clone, Copy, PartialEq, Eq, Structural)]
pub enum StoreOp {
    Store,
    Discard,
}

/// A color attachment of a render pass.
#[derive(Debug, Clone, Copy, PartialEq, Eq, Structural)]
pub struct RenderPassColorAttachment {
    pub load: LoadOp,
    pub store: StoreOp,
}

/// A depth/stencil attachment of a render pass.
#[derive(Debug, Clone, Copy, PartialEq, Eq, Structural)]
pub struct RenderPassDepthStencilAttachment {
    pub depth_clear: bool,
    pub stencil_clear: Option<u32>,
}

/// The clear color of the first color attachment, when it clears.
pub open spec fn spec_first_clear(s: Seq<Option<RenderPassColorAttachment>>) -> Option<Color> {
    if s.len() > 0 {
        match s[0] {
            Some(a) => match a.load {
                LoadOp::Clear(c) => Some(c),
                LoadOp::Load => None,
            },
            None => None,
        }
    } else {
        None
    }
}

/// An open render pass, accumulating draw commands until it is closed back
/// into its recording session.
#[derive(Debug)]
pub struct RenderPass {
    pub ops: Vec<Command>,
    pub clear_color: Option<Color>,
    pub has_depth: bool,
}

impl RenderPass {
    /// Describe a new render pass by its attachments.
    pub fn new(
        color_attachments: &[Option<RenderPassColorAttachment>],
        depth_stencil_attachment: Option<RenderPassDepthStencilAttachment>,
        _label: Option<&str>,
    ) -> (r: Self)
        ensures
            r.ops@ =~= Seq::<Command>::empty(),
            r.clear_color == spec_first_clear(color_attachments@),
            r.has_depth == depth_stencil_attachment is Some,
    {
        let clear_color = if color_attachments.len() > 0 {
            match vstd::slice::slice_index_get(color_attachments, 0) {
                Some(a) => match a.load {
                    LoadOp::Clear(c) => Some(c),
                    LoadOp::Load => None,
                },
                None => None,
            }
        } else {
            None
        };
        RenderPass {
            ops: Vec::new(),
            clear_color,
            has_depth: depth_stencil_attachment.is_some(),
        }
    }

    /// Set the render pipeline.
    pub fn set_pipeline(&mut self, _pipeline: &RenderPipeline)
        ensures
            final(self).ops@ =~= old(self).ops@.push(Command::SetRenderPipeline),
            final(self).clear_color == old(self).clear_color,
            final(self).has_depth == old(self).has_depth,
    {
        self.ops.push(Command::SetRenderPipeline);
    }

    /// Set a bind group.
    pub fn set_bind_group(&mut self, index: u32, _bind_group: &BindGroup, offsets: &[u32])
        ensures
            final(self).ops@.len() == old(self).ops@.len() + 1,
            final(self).ops@.subrange(0, old(self).ops@.len() as int) =~= old(self).ops@,
            final(self).ops@.last() matches Command::SetBindGroup {
                index: i,
                dynamic_offsets: o,
            } && i == index && o@ =~= offsets@,
            final(self).clear_color == old(self).clear_color,
            final(self).has_depth == old(self).has_depth,
    {
        self.ops.push(
            Command::SetBindGroup { index, dynamic_offsets: vstd::slice::slice_to_vec(offsets) },
        );
    }

    /// Set a vertex buffer.
    pub fn set_vertex_buffer<T>(&mut self, slot: u32, buffer: &TypedBuffer<T>)
        ensures
            final(self).ops@ =~= old(self).ops@.push(
                Command::SetVertexBuffer { slot, byte_len: buffer.buffer.size },
            ),
            final(self).clear_color == old(self).clear_color,
            final(self).has_depth == old(self).has_depth,
    {
        self.ops.push(Command::SetVertexBuffer { slot, byte_len: buffer.buffer.size });
    }

    /// Set the index buffer.
    pub fn set_index_buffer<T>(&mut self, buffer: &TypedBuffer<T>, format: IndexFormat)
        ensures
            final(self).ops@ =~= old(self).ops@.push(
                Command::SetIndexBuffer { format, byte_len: buffer.buffer.size },
            ),
            final(self).clear_color == old(self).clear_color,
            final(self).has_depth == old(self).has_depth,
    {
        self.ops.push(Command::SetIndexBuffer { format, byte_len: buffer.buffer.size });
    }

    /// Draw primitives.
    pub fn draw(&mut self, vertices: core::ops::Range<u32>, instances: core::ops::Range<u32>)
        ensures
            final(self).ops@ =~= old(self).ops@.push(
                Command::Draw {
                    first_vertex: vertices.start,
                    end_vertex: vertices.end,
                    first_instance: instances.start,
                    end_instance: instances.end,
                },
            ),
            final(self).clear_color == old(self).clear_color,
            final(self).has_depth == old(self).has_depth,
    {
        self.ops.push(
            Command::Draw {
                first_vertex: vertices.start,
                end_vertex: vertices.end,
                first_instance: instances.start,
                end_instance: instances.end,
            },
        );
    }

    /// Draw indexed primitives.
    pub fn draw_indexed(
        &mut self,
        indices: core::ops::Range<u32>,
        base_vertex: i32,
        instances: core::ops::Range<u32>,
    )
        ensures
            final(self).ops@ =~= old(self).ops@.push(
                Command::DrawIndexed {
                    first_index: indices.start,
                    end_index: indices.end,
                    base_vertex,
                    first_instance: instances.start,
                    end_instance: instances.end,
                },
            ),
            final(self).clear_color == old(self).clear_color,
            final(self).has_depth == old(self).has_depth,
    {
        self.ops.push(
            Command::DrawIndexed {
                first_index: indices.start,
                end_index: indices.end,
                base_vertex,
                first_instance: instances.start,
                end_instance: instances.end,
            },
        );
    }
}

/// A render command recording session. Exactly one pass may be open at a
/// time, and a session that was submitted cannot record or submit again;
/// breaking either rule is an invalid-operation error.
#[derive(Debug)]
pub struct RenderCommands {
    pub encoder: CommandEncoder,
    pub state: SessionState,
}

impl RenderCommands {
    /// Start a new recording session.
    pub fn new(_context: &GpuContext, _label: Option<&str>) -> (r: Self)
        ensures
            r.encoder.commands@ =~= Seq::<Command>::empty(),
            r.state == SessionState::Recording,
    {
        RenderCommands { encoder: CommandEncoder::new(), state: SessionState::Recording }
    }

    /// Open a render pass. Fails when a pass is already open or the
    /// session was submitted.
    pub fn begin_render_pass(
        &mut self,
        color_attachments: &[Option<RenderPassColorAttachment>],
        depth_stencil_attachment: Option<RenderPassDepthStencilAttachment>,
        label: Option<&str>,
    ) -> (r: Result<RenderPass, GeepuError>)
        ensures
            r is Ok <==> old(self).state == SessionState::Recording,
            r matches Err(e) ==> e matches GeepuError::InvalidOperation(_) && *final(self) == *old(
                self,
            ),
            r matches Ok(p) ==> {
                &&& final(self).state == SessionState::PassOpen
                &&& final(self).encoder == old(self).encoder
                &&& p.ops@ =~= Seq::<Command>::empty()
                &&& p.clear_color == spec_first_clear(color_attachments@)
                &&& p.has_depth == depth_stencil_attachment is Some
            },
    {
        match self.state {
            SessionState::Recording => {
                self.state = SessionState::PassOpen;
                Ok(RenderPass::new(color_attachments, depth_stencil_attachment, label))
            },
            _ => Err(
                GeepuError::InvalidOperation(
                    "a pass is already open or the session was submitted".to_owned(),
                ),
            ),
        }
    }

    /// Close a pass back into the session: its commands are appended to
    /// the encoder between begin-pass and end-pass markers. Fails when no
    /// pass is open.
    pub fn end_render_pass(&mut self, pass: RenderPass) -> (r: Result<(), GeepuError>)
        ensures
            r is Ok <==> old(self).state == SessionState::PassOpen,
            r matches Err(e) ==> e matches GeepuError::InvalidOperation(_) && *final(self) == *old(
                self,
            ),
            r is Ok ==> {
                &&& final(self).state == SessionState::Recording
                &&& final(self).encoder.commands@ =~= old(self).encoder.commands@ + seq![
                    Command::BeginRenderPass {
                        clear_color: pass.clear_color,
                        has_depth: pass.has_depth,
                    },
                ] + pass.ops@ + seq![Command::EndRenderPass]
            },
    {
        match self.state {
            SessionState::PassOpen => {
                self.encoder.commands.push(
                    Command::BeginRenderPass {
                        clear_color: pass.clear_color,
                        has_depth: pass.has_depth,
                    },
                );
                let mut ops = pass.ops;
                self.encoder.commands.append(&mut ops);
                self.encoder.commands.push(Command::EndRenderPass);
                self.state = SessionState::Recording;
                Ok(())
            },
            _ => Err(GeepuError::InvalidOperation("no pass is open on this session".to_owned())),
        }
    }

    /// Record a buffer-to-buffer copy. Fails while a pass is open or after
    /// submission.
    pub fn copy_buffer_to_buffer(
        &mut self,
        _source: &Buffer,
        source_offset: u64,
        _destination: &Buffer,
        destination_offset: u64,
        copy_size: u64,
    ) -> (r: Result<(), GeepuError>)
        ensures
            r is Ok <==> old(self).state == SessionState::Recording,
            r matches Err(e) ==> e matches GeepuError::InvalidOperation(_) && *final(self) == *old(
                self,
            ),
            r is Ok ==> {
                &&& final(self).state == SessionState::Recording
                &&& final(self).encoder.commands@ =~= old(self).encoder.commands@.push(
                    Command::CopyBufferToBuffer {
                        source_offset,
                        destination_offset,
                        size: copy_size,
                    },
                )
            },
    {
        match self.state {
            SessionState::Recording => {
                self.encoder.commands.push(
                    Command::CopyBufferToBuffer {
                        source_offset,
                        destination_offset,
                        size: copy_size,
                    },
                );
                Ok(())
            },
            _ => Err(
                GeepuError::InvalidOperation(
                    "the session is not recording (a pass is open, or it was submitted)".to_owned(),
                ),
            ),
        }
    }

    /// Record a buffer-to-texture copy. Fails while a pass is open or
    /// after submission.
    pub fn copy_buffer_to_texture(
        &mut self,
        _source: ImageCopyBuffer,
        _destination: ImageCopyTexture,
        copy_size: Extent3d,
    ) -> (r: Result<(), GeepuError>)
        ensures
            r is Ok <==> old(self).state == SessionState::Recording,
            r matches Err(e) ==> e matches GeepuError::InvalidOperation(_) && *final(self) == *old(
                self,
            ),
            r is Ok ==> {
                &&& final(self).state == SessionState::Recording
                &&& final(self).encoder.commands@ =~= old(self).encoder.commands@.push(
                    Command::CopyBufferToTexture {
                        width: copy_size.width,
                        height: copy_size.height,
                    },
                )
            },
    {
        match self.state {
            SessionState::Recording => {
                self.encoder.commands.push(
                    Command::CopyBufferToTexture {
                        width: copy_size.width,
                        height: copy_size.height,
                    },
                );
                Ok(())
            },
            _ => Err(
                GeepuError::InvalidOperation(
                    "the session is not recording (a pass is open, or it was submitted)".to_owned(),
                ),
            ),
        }
    }

    /// Record a texture-to-buffer copy. Fails while a pass is open or
    /// after submission.
    pub fn copy_texture_to_buffer(
        &mut self,
        _source: ImageCopyTexture,
        destination: ImageCopyBuffer,
        copy_size: Extent3d,
    ) -> (r: Result<(), GeepuError>)
        ensures
            r is Ok <==> old(self).state == SessionState::Recording,
            r matches Err(e) ==> e matches GeepuError::InvalidOperation(_) && *final(self) == *old(
                self,
            ),
            r is Ok ==> {
                &&& final(self).state == SessionState::Recording
                &&& final(self).encoder.commands@ =~= old(self).encoder.commands@.push(
                    Command::CopyTextureToBuffer {
                        width: copy_size.width,
                        height: copy_size.height,
                        bytes_per_row: match destination.bytes_per_row {
                            Some(b) => b as u64,
                            None => 0u64,
                        },
                        rows_per_image: match destination.rows_per_image {
                            Some(ro) => ro,
                            None => 0u32,
                        },
                    },
                )
            },
    {
        match self.state {
            SessionState::Recording => {
                let bytes_per_row: u64 = match destination.bytes_per_row {
                    Some(b) => b as u64,
                    None => 0u64,
                };
                let rows_per_image: u32 = match destination.rows_per_image {
                    Some(ro) => ro,
                    None => 0u32,
                };
                self.encoder.commands.push(
                    Command::CopyTextureToBuffer {
                        width: copy_size.width,
                        height: copy_size.height,
                        bytes_per_row,
                        rows_per_image,
                    },
                );
                Ok(())
            },
            _ => Err(
                GeepuError::InvalidOperation(
                    "the session is not recording (a pass is open, or it was submitted)".to_owned(),
                ),
            ),
        }
    }

    /// Submit the session's commands to the device queue, consuming the
    /// session: a second submission, or a submission while a pass is open,
    /// is an invalid-operation error.
    pub fn submit(&mut self, context: &mut GpuContext) -> (r: Result<(), GeepuError>)
        ensures
            r is Ok <==> old(self).state == SessionState::Recording,
            r matches Err(e) ==> e matches GeepuError::InvalidOperation(_) && *final(self) == *old(
                self,
            ) && *final(context) == *old(context),
            r is Ok ==> {
                &&& final(self).state == SessionState::Submitted
                &&& final(self).encoder.commands@ =~= Seq::<Command>::empty()
                &&& queue_plus_submission(
                    old(context).queue,
                    final(context).queue,
                    old(self).encoder.commands@,
                )
                &&& final(context).surface_config == old(context).surface_config
                &&& final(context).features == old(context).features
            },
    {
        match self.state {
            SessionState::Recording => {
                let mut commands: Vec<Command> = Vec::new();
                core::mem::swap(&mut commands, &mut self.encoder.commands);
                context.queue.submitted.push(crate::context::CommandBuffer { commands });
                self.state = SessionState::Submitted;
                Ok(())
            },
            _ => Err(
                GeepuError::InvalidOperation(
                    "the session cannot be submitted (a pass is open, or it was already submitted)"
                        .to_owned(),
                ),
            ),
        }
    }

    /// The underlying encoder, for advanced usage.
    pub fn encoder(&self) -> (r: &CommandEncoder)
        ensures
            r == self.encoder,
    {
        &self.encoder
    }
}

/// Simple render target helper: a color texture and an optional depth
/// texture of the same size.
#[derive(Debug, Clone, Copy, PartialEq, Eq, Structural)]
pub struct RenderTarget {
    pub texture: Texture,
    pub depth_texture: Option<Texture>,
}

impl RenderTarget {
    /// Create a new render target, with a depth texture when `with_depth`.
    pub fn new(
        context: &GpuContext,
        width: u32,
        height: u32,
        format: TextureFormat,
        with_depth: bool,
        label: Option<&str>,
    ) -> (r: Result<Self, GeepuError>)
        ensures
            r matches Ok(t) ==> {
                &&& t.texture.width == width
                &&& t.texture.height == height
                &&& t.texture.format == format
                &&& t.texture.usage.render_attachment
                &&& t.texture.usage.texture_binding
                &&& t.depth_texture is Some <==> with_depth
                &&& t.depth_texture matches Some(d) ==> d.width == width && d.height == height
                    && d.format == TextureFormat::Depth32Float
            },
            r is Ok,
    {
        let texture = match Texture::create_render_target(context, width, height, format, label) {
            Ok(t) => t,
            Err(e) => {
                proof {
                    assert(false);
                }
                return Err(e);
            },
        };
        let depth_texture = if with_depth {
            match Texture::create_depth_texture(context, width, height, label) {
                Ok(d) => Some(d),
                Err(e) => {
                    proof {
                        assert(false);
                    }
                    return Err(e);
                },
            }
        } else {
            None
        };
        Ok(RenderTarget { texture, depth_texture })
    }

    /// The color attachment for a render pass over this target.
    pub fn color_attachment(&self, clear_color: Option<Color>) -> (r: RenderPassColorAttachment)
        ensures
            r.load == (match clear_color {
                Some(c) => LoadOp::Clear(c),
                None => LoadOp::Load,
            }),
            r.store == StoreOp::Store,
    {
        RenderPassColorAttachment {
            load: match clear_color {
                Some(c) => LoadOp::Clear(c),
                None => LoadOp::Load,
            },
            store: StoreOp::Store,
        }
    }

    /// The depth attachment for a render pass over this target, when it
    /// has a depth texture.
    pub fn depth_stencil_attachment(&self, clear_depth: bool) -> (r: Option<
        RenderPassDepthStencilAttachment,
    >)
        ensures
            r is Some <==> self.depth_texture is Some,
            r matches Some(a) ==> a.depth_clear == clear_depth && a.stencil_clear is None,
    {
        match &self.depth_texture {
            Some(_) => Some(
                RenderPassDepthStencilAttachment { depth_clear: clear_depth, stencil_clear: None },
            ),
            None => None,
        }
    }

    /// Size of the render target.
    pub fn size(&self) -> (r: (u32, u32))
        ensures
            r == (self.texture.width, self.texture.height),
    {
        self.texture.size()
    }
}

/// A color attachment over any texture view.
pub fn color_attachment(_view: &Texture, clear_color: Option<Color>) -> (r:
    RenderPassColorAttachment)
    ensures
        r.load == (match clear_color {
            Some(c) => LoadOp::Clear(c),
            None => LoadOp::Load,
        }),
        r.store == StoreOp::Store,
{
    RenderPassColorAttachment {
        load: match clear_color {
            Some(c) => LoadOp::Clear(c),
            None => LoadOp::Load,
        },
        store: StoreOp::Store,
    }
}

/// A depth/stencil attachment over any texture view.
pub fn depth_stencil_attachment(
    _view: &Texture,
    clear_depth: bool,
    clear_stencil: Option<u32>,
) -> (r: RenderPassDepthStencilAttachment)
    ensures
        r.depth_clear == clear_depth,
        r.stencil_clear == clear_stencil,
{
    RenderPassDepthStencilAttachment { depth_clear: clear_depth, stencil_clear: clear_stencil }
}

} // verus!

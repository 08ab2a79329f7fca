//! Command batches: the ordered list of GPU commands of one submission.
//!
//! A batch is built by appending commands; nothing reaches the GPU until the
//! batch is sealed and handed to the driver. Copies stand outside a render
//! pass and draws inside one, so a batch can be sealed only when every pass
//! it began has been ended.

use vstd::prelude::*;
use crate::binding::{BoundGroup, PipelineKind, Resource, ResourceKind};
use crate::scratch::ScratchHandle;

verus! {

/// A render target: one image of the chain together with the depth
/// attachment that all images share, at the extent both were made for.
#[derive(Clone, Copy, Debug, PartialEq, Eq)]
pub struct Framebuffer {
    pub image: usize,
    pub dimensions: [u32; 2],
}

/// The values an attachment is cleared to when a render pass begins. Each
/// channel is given in 255ths.
#[derive(Clone, Copy, Debug, PartialEq, Eq)]
pub struct ClearValues {
    pub color: [u8; 4],
    pub depth: u8,
}

/// One draw: a pipeline, the vertices it reads, one bound group for each of
/// its slot sets, and the constants pushed with the call. Vertices and
/// constants are named by the identity the driver knows them by.
#[derive(Debug)]
pub struct DrawCall {
    pub pipeline: PipelineKind,
    pub vertices: u64,
    pub groups: Vec<BoundGroup>,
    pub constants: u64,
}

impl DrawCall {
    /// Whether there is one group for each slot set of the pipeline, each of
    /// the pipeline and at its own slot set.
    pub open spec fn well_bound(&self) -> bool {
        &&& self.groups@.len() == self.pipeline.slot_sets()
        &&& forall|i: int|
            0 <= i < self.groups@.len() ==> {
                &&& (#[trigger] self.groups@[i])@.pipeline == self.pipeline
                &&& self.groups@[i]@.slot_index == i
            }
    }

    /// Whether there is one group for each slot set of the pipeline, each of
    /// the pipeline and at its own slot set.
    pub fn is_well_bound(&self) -> (b: bool)
        ensures
            b == self.well_bound(),
    {
        if self.groups.len() != self.pipeline.slot_sets() {
            return false;
        }
        let mut i: usize = 0;
        while i < self.groups.len()
            invariant
                i <= self.groups.len(),
                forall|j: int|
                    0 <= j < i ==> {
                        &&& (#[trigger] self.groups@[j])@.pipeline == self.pipeline
                        &&& self.groups@[j]@.slot_index == j
                    },
            decreases self.groups.len() - i,
        {
            if self.groups[i].pipeline() != self.pipeline || self.groups[i].slot_index() != i {
                return false;
            }
            i += 1;
        }
        true
    }
}

/// A GPU command.
#[derive(Debug)]
pub enum Command {
    /// Copy a staged value into a device-resident buffer.
    CopyBuffer { source: ScratchHandle, destination: Resource },
    /// Enter a render pass on a framebuffer, clearing its attachments.
    BeginRenderPass { framebuffer: Framebuffer, clear: ClearValues },
    /// Draw inside the current render pass.
    Draw(DrawCall),
    /// Leave the current render pass.
    EndRenderPass,
}

/// Why a command was refused.
#[derive(Clone, Copy, PartialEq, Eq, Structural, Debug)]
pub enum BatchError {
    /// The command may not stand inside a render pass.
    ForbiddenInsideRenderPass,
    /// The command may stand only inside a render pass.
    ForbiddenOutsideRenderPass,
    /// The destination of a copy is not a buffer.
    NotABuffer,
    /// A draw has not one group for each slot set of its pipeline, each of
    /// the pipeline and at its own slot set.
    GroupMismatch,
}

/// Whether a render pass is open after `commands`.
pub open spec fn pass_open(commands: Seq<Command>) -> bool
    decreases commands.len(),
{
    if commands.len() == 0 {
        false
    } else {
        match commands.last() {
            Command::BeginRenderPass { .. } => true,
            Command::EndRenderPass => false,
            _ => pass_open(commands.drop_last()),
        }
    }
}

/// Whether `commands` keeps to the bracket rule: a pass is begun and copies
/// are made only outside a pass, draws are made and a pass is ended only
/// inside one.
pub open spec fn well_bracketed(commands: Seq<Command>) -> bool
    decreases commands.len(),
{
    if commands.len() == 0 {
        true
    } else {
        let before = commands.drop_last();
        &&& well_bracketed(before)
        &&& match commands.last() {
            Command::CopyBuffer { .. } => !pass_open(before),
            Command::BeginRenderPass { .. } => !pass_open(before),
            Command::Draw(_) => pass_open(before),
            Command::EndRenderPass => pass_open(before),
        }
    }
}

/// A batch that is still being recorded.
#[derive(Debug)]
pub struct CommandBatch {
    commands: Vec<Command>,
    in_render_pass: bool,
}

impl View for CommandBatch {
    type V = Seq<Command>;

    closed spec fn view(&self) -> Seq<Command> {
        self.commands@
    }
}

/// A finished batch: the commands of one submission, in issue order. It can
/// no longer be added to, and it is submitted by giving it away.
#[derive(Debug)]
pub struct SealedBatch {
    commands: Vec<Command>,
}

impl View for SealedBatch {
    type V = Seq<Command>;

    closed spec fn view(&self) -> Seq<Command> {
        self.commands@
    }
}

impl SealedBatch {
    #[verifier::type_invariant]
    spec fn inv(self) -> bool {
        well_bracketed(self.commands@) && !pass_open(self.commands@)
    }

    /// The number of commands.
    pub fn len(&self) -> (n: usize)
        ensures
            n == self@.len(),
    {
        self.commands.len()
    }

    /// The commands in issue order.
    pub fn commands(&self) -> (c: &Vec<Command>)
        ensures
            c@ == self@,
            well_bracketed(self@),
            !pass_open(self@),
    {
        proof {
            use_type_invariant(self);
        }
        &self.commands
    }

    /// Gives up the batch for its commands.
    pub fn into_commands(self) -> (c: Vec<Command>)
        ensures
            c@ == self@,
            well_bracketed(self@),
            !pass_open(self@),
    {
        proof {
            use_type_invariant(&self);
        }
        self.commands
    }
}

impl CommandBatch {
    #[verifier::type_invariant]
    spec fn inv(self) -> bool {
        well_bracketed(self.commands@) && self.in_render_pass == pass_open(self.commands@)
    }

    /// An empty batch.
    pub fn new() -> (batch: CommandBatch)
        ensures
            batch@ == Seq::<Command>::empty(),
    {
        CommandBatch { commands: Vec::new(), in_render_pass: false }
    }

    /// The number of commands recorded so far.
    pub fn len(&self) -> (n: usize)
        ensures
            n == self@.len(),
    {
        self.commands.len()
    }

    /// Whether a render pass is open.
    pub fn in_render_pass(&self) -> (open: bool)
        ensures
            open == pass_open(self@),
            well_bracketed(self@),
    {
        proof {
            use_type_invariant(self);
        }
        self.in_render_pass
    }

    /// Appends a copy of the staged value behind `source` into `destination`.
    /// Refused inside a render pass, and where the destination is no buffer.
    pub fn copy_buffer(self, source: ScratchHandle, destination: Resource) -> (result: Result<
        CommandBatch,
        BatchError,
    >)
        ensures
            match result {
                Ok(batch) => {
                    &&& !pass_open(self@)
                    &&& destination.kind == ResourceKind::UniformBuffer
                    &&& batch@ == self@.push(Command::CopyBuffer { source, destination })
                },
                Err(e) => e == if pass_open(self@) {
                    BatchError::ForbiddenInsideRenderPass
                } else {
                    BatchError::NotABuffer
                } && (pass_open(self@) || destination.kind != ResourceKind::UniformBuffer),
            },
    {
        proof {
            use_type_invariant(&self);
        }
        if self.in_render_pass {
            return Err(BatchError::ForbiddenInsideRenderPass);
        }
        if destination.kind != ResourceKind::UniformBuffer {
            return Err(BatchError::NotABuffer);
        }
        let mut commands = self.commands;
        let ghost before = commands@;
        commands.push(Command::CopyBuffer { source, destination });
        assert(commands@.drop_last() == before);
        Ok(CommandBatch { commands, in_render_pass: false })
    }

    /// Appends the start of a render pass on `framebuffer`. Refused inside a
    /// render pass.
    pub fn begin_render_pass(self, framebuffer: Framebuffer, clear: ClearValues) -> (result: Result<
        CommandBatch,
        BatchError,
    >)
        ensures
            match result {
                Ok(batch) => {
                    &&& !pass_open(self@)
                    &&& batch@ == self@.push(Command::BeginRenderPass { framebuffer, clear })
                },
                Err(e) => e == BatchError::ForbiddenInsideRenderPass && pass_open(self@),
            },
    {
        proof {
            use_type_invariant(&self);
        }
        if self.in_render_pass {
            return Err(BatchError::ForbiddenInsideRenderPass);
        }
        let mut commands = self.commands;
        let ghost before = commands@;
        commands.push(Command::BeginRenderPass { framebuffer, clear });
        assert(commands@.drop_last() == before);
        Ok(CommandBatch { commands, in_render_pass: true })
    }

    /// Appends a draw. Refused outside a render pass, and where the call
    /// has not one group for each slot set of its pipeline, or a group of it
    /// belongs to another pipeline or stands at another slot set than its
    /// own.
    pub fn draw(self, call: DrawCall) -> (result: Result<CommandBatch, BatchError>)
        ensures
            match result {
                Ok(batch) => {
                    &&& pass_open(self@)
                    &&& call.well_bound()
                    &&& batch@ == self@.push(Command::Draw(call))
                },
                Err(e) => e == if !pass_open(self@) {
                    BatchError::ForbiddenOutsideRenderPass
                } else {
                    BatchError::GroupMismatch
                } && (!pass_open(self@) || !call.well_bound()),
            },
    {
        proof {
            use_type_invariant(&self);
        }
        if !self.in_render_pass {
            return Err(BatchError::ForbiddenOutsideRenderPass);
        }
        if !call.is_well_bound() {
            return Err(BatchError::GroupMismatch);
        }
        let mut commands = self.commands;
        let ghost before = commands@;
        commands.push(Command::Draw(call));
        assert(commands@.drop_last() == before);
        Ok(CommandBatch { commands, in_render_pass: true })
    }

    /// Appends the end of the open render pass. Refused outside a render
    /// pass.
    pub fn end_render_pass(self) -> (result: Result<CommandBatch, BatchError>)
        ensures
            match result {
                Ok(batch) => {
                    &&& pass_open(self@)
                    &&& batch@ == self@.push(Command::EndRenderPass)
                },
                Err(e) => e == BatchError::ForbiddenOutsideRenderPass && !pass_open(self@),
            },
    {
        proof {
            use_type_invariant(&self);
        }
        if !self.in_render_pass {
            return Err(BatchError::ForbiddenOutsideRenderPass);
        }
        let mut commands = self.commands;
        let ghost before = commands@;
        commands.push(Command::EndRenderPass);
        assert(commands@.drop_last() == before);
        Ok(CommandBatch { commands, in_render_pass: false })
    }

    /// Seals the batch. Refused while a render pass is open.
    pub fn build(self) -> (result: Result<SealedBatch, BatchError>)
        ensures
            match result {
                Ok(sealed) => !pass_open(self@) && sealed@ == self@,
                Err(e) => e == BatchError::ForbiddenInsideRenderPass && pass_open(self@),
            },
    {
        proof {
            use_type_invariant(&self);
        }
        if self.in_render_pass {
            return Err(BatchError::ForbiddenInsideRenderPass);
        }
        Ok(SealedBatch { commands: self.commands })
    }
}

} // verus!

//! Command pool and command buffer: the synchronous submission protocol.
//!
//! A pool is created for exactly one queue-family index and hands out
//! primary command buffers one at a time; a buffer must be freed back to its
//! pool before the pool may be destroyed.  A buffer moves through the states
//! not-begun, recording and executable; submission is synchronous (the call
//! stands for submit followed by an idle-wait), so a submitted buffer is
//! immediately reusable.  The two supported operations record fixed command
//! sequences: a three-vertex draw inside a render pass, and a full-extent
//! image blit.

use vstd::prelude::*;

use crate::image::ImageLayout;

verus! {

/// Where a command buffer stands in its lifecycle.
#[derive(Clone, Copy, Debug, PartialEq, Eq, Structural)]
pub enum CommandBufferState {
    /// Allocated or reset; recording has not begun.
    Initial,
    /// Between begin and end: commands may be recorded.
    Recording,
    /// Recording ended; the buffer may be submitted, repeatedly.
    Executable,
}

/// The level a command buffer is allocated at.  This library's pools hand
/// out primary buffers, submitted directly to a queue.
#[derive(Clone, Copy, Debug, PartialEq, Eq, Structural)]
pub enum CommandBufferLevel {
    Primary,
    Secondary,
}

/// Everything the one recorded blit says: both corners of the blitted
/// region on both sides, the subresource on both sides, the layout both
/// images are in, and the filter.
#[derive(Clone, Copy, Debug, PartialEq, Eq, Structural)]
pub struct BlitDesc {
    /// Start corner of the region, on both sides.
    pub offset_x: i32,
    pub offset_y: i32,
    pub offset_z: i32,
    /// End corner of the region, on both sides: the full extent, depth 1.
    pub width: i32,
    pub height: i32,
    pub depth: i32,
    /// Layout the source image is in.
    pub src_layout: ImageLayout,
    /// Layout the destination image is in.
    pub dst_layout: ImageLayout,
    /// Linear (rather than nearest) filtering.
    pub linear_filter: bool,
    /// The single-level, single-layer color subresource, on both sides.
    pub mip_level: u32,
    pub base_array_layer: u32,
    pub layer_count: u32,
    pub aspect_color: bool,
}

/// The fixed blit the library records: the full `width` x `height` x 1
/// region from zero offsets, source and destination both in the general
/// layout, linear filtering, over the single-level, single-layer color
/// subresource of each image.
pub open spec fn blit_description(width: i32, height: i32) -> BlitDesc {
    BlitDesc {
        offset_x: 0,
        offset_y: 0,
        offset_z: 0,
        width,
        height,
        depth: 1,
        src_layout: ImageLayout::General,
        dst_layout: ImageLayout::General,
        linear_filter: true,
        mip_level: 0,
        base_array_layer: 0,
        layer_count: 1,
        aspect_color: true,
    }
}

/// One recorded command.
#[derive(Clone, Copy, Debug, PartialEq, Eq, Structural)]
pub enum RecordedCommand {
    /// Begin the render pass on the target framebuffer over the full
    /// extent; `clear_values` counts the attachments cleared on entry, and
    /// the library's draw clears none.
    BeginRenderPass { width: u32, height: u32, clear_values: u32 },
    /// Bind the graphics pipeline.
    BindGraphicsPipeline,
    /// Issue a draw.
    Draw { vertex_count: u32, instance_count: u32, first_vertex: u32, first_instance: u32 },
    /// End the render pass.
    EndRenderPass,
    /// Blit from the optimized source image into the linear destination
    /// image, exactly as the description says.
    BlitImage { blit: BlitDesc },
}

/// The command sequence `draw_triangle` records: one clear-free render pass
/// over the full extent, the graphics pipeline, and a fixed 3-vertex,
/// 1-instance, no-offset draw.
pub open spec fn triangle_commands(width: u32, height: u32) -> Seq<RecordedCommand> {
    seq![
        RecordedCommand::BeginRenderPass { width, height, clear_values: 0 },
        RecordedCommand::BindGraphicsPipeline,
        RecordedCommand::Draw {
            vertex_count: 3,
            instance_count: 1,
            first_vertex: 0,
            first_instance: 0,
        },
        RecordedCommand::EndRenderPass,
    ]
}

/// The command sequence `blit_image` records: the one fixed full-extent
/// blit.
pub open spec fn blit_commands(width: i32, height: i32) -> Seq<RecordedCommand> {
    seq![RecordedCommand::BlitImage { blit: blit_description(width, height) }]
}

/// An allocation arena for command buffers on one queue family.
pub struct CommandPool {
    queue_family_index: u32,
    live_buffers: usize,
}

/// A command buffer allocated from a pool.
pub struct ManagedCommandBuffer {
    level: CommandBufferLevel,
    state: CommandBufferState,
    commands: Vec<RecordedCommand>,
}

impl CommandPool {
    /// The queue-family index the pool was created for, for contracts.
    pub closed spec fn queue_family_index_spec(self) -> u32 {
        self.queue_family_index
    }

    /// How many buffers allocated from this pool are still live, for
    /// contracts.
    pub closed spec fn live_buffers_spec(self) -> nat {
        self.live_buffers as nat
    }

    /// A pool for the given queue family, with no buffer allocated yet.
    pub fn new(queue_family_index: u32) -> (r: CommandPool)
        ensures
            r.queue_family_index_spec() == queue_family_index,
            r.live_buffers_spec() == 0,
    {
        CommandPool { queue_family_index, live_buffers: 0 }
    }

    /// The queue-family index the pool was created for.
    pub fn queue_family_index(&self) -> (r: u32)
        ensures
            r == self.queue_family_index_spec(),
    {
        self.queue_family_index
    }

    /// How many buffers allocated from this pool are still live.
    pub fn live_buffers(&self) -> (r: usize)
        ensures
            r == self.live_buffers_spec(),
    {
        self.live_buffers
    }

    /// Whether the pool may be destroyed: destroying it while a buffer it
    /// allocated is live is a caller error the pool does not police.
    pub fn can_destroy(&self) -> (r: bool)
        ensures
            r == (self.live_buffers_spec() == 0),
    {
        self.live_buffers == 0
    }

    /// Allocate one primary-level command buffer, in the not-begun state
    /// with nothing recorded.
    pub fn allocate_command_buffer(&mut self) -> (r: ManagedCommandBuffer)
        requires
            old(self).live_buffers_spec() < usize::MAX,
        ensures
            final(self).queue_family_index_spec() == old(self).queue_family_index_spec(),
            final(self).live_buffers_spec() == old(self).live_buffers_spec() + 1,
            r.level_spec() is Primary,
            r.state_spec() is Initial,
            r.commands_spec() == Seq::<RecordedCommand>::empty(),
    {
        self.live_buffers = self.live_buffers + 1;
        ManagedCommandBuffer {
            level: CommandBufferLevel::Primary,
            state: CommandBufferState::Initial,
            commands: Vec::new(),
        }
    }

    /// Free a buffer back to the pool that allocated it.
    pub fn free_command_buffer(&mut self, buffer: ManagedCommandBuffer)
        requires
            old(self).live_buffers_spec() > 0,
        ensures
            final(self).queue_family_index_spec() == old(self).queue_family_index_spec(),
            final(self).live_buffers_spec() == old(self).live_buffers_spec() - 1,
    {
        let _ = buffer;
        self.live_buffers = self.live_buffers - 1;
    }
}

impl ManagedCommandBuffer {
    /// The level the buffer was allocated at, for contracts.
    pub closed spec fn level_spec(self) -> CommandBufferLevel {
        self.level
    }

    /// The buffer's lifecycle state, for contracts.
    pub closed spec fn state_spec(self) -> CommandBufferState {
        self.state
    }

    /// What has been recorded, for contracts.
    pub closed spec fn commands_spec(self) -> Seq<RecordedCommand> {
        self.commands@
    }

    /// The level the buffer was allocated at.
    pub fn level(&self) -> (r: CommandBufferLevel)
        ensures
            r == self.level_spec(),
    {
        self.level
    }

    /// The buffer's lifecycle state.
    pub fn state(&self) -> (r: CommandBufferState)
        ensures
            r == self.state_spec(),
    {
        self.state
    }

    /// What has been recorded, in order.
    pub fn commands(&self) -> (r: &Vec<RecordedCommand>)
        ensures
            r@ == self.commands_spec(),
    {
        &self.commands
    }

    /// Begin recording on a not-begun buffer.
    pub fn begin(&mut self)
        requires
            old(self).state_spec() is Initial,
        ensures
            final(self).level_spec() == old(self).level_spec(),
            final(self).state_spec() is Recording,
            final(self).commands_spec() == old(self).commands_spec(),
    {
        self.state = CommandBufferState::Recording;
    }

    /// End recording; the buffer becomes executable.
    pub fn end(&mut self)
        requires
            old(self).state_spec() is Recording,
        ensures
            final(self).level_spec() == old(self).level_spec(),
            final(self).state_spec() is Executable,
            final(self).commands_spec() == old(self).commands_spec(),
    {
        self.state = CommandBufferState::Executable;
    }

    /// Reset the buffer, releasing its recorded commands; any state returns
    /// to not-begun.
    pub fn reset(&mut self)
        ensures
            final(self).level_spec() == old(self).level_spec(),
            final(self).state_spec() is Initial,
            final(self).commands_spec() == Seq::<RecordedCommand>::empty(),
    {
        self.state = CommandBufferState::Initial;
        self.commands = Vec::new();
    }

    /// Record one command while recording.
    fn record(&mut self, command: RecordedCommand)
        requires
            old(self).state_spec() is Recording,
        ensures
            final(self).level_spec() == old(self).level_spec(),
            final(self).state_spec() is Recording,
            final(self).commands_spec() == old(self).commands_spec().push(command),
    {
        self.commands.push(command);
    }

    /// Submit the executable buffer to the queue and wait until the queue is
    /// idle: the call stands for the whole synchronous round trip, after
    /// which the buffer is reusable as it stands.
    pub fn submit_and_wait_idle(&mut self, queue: u64)
        requires
            old(self).state_spec() is Executable,
        ensures
            final(self).level_spec() == old(self).level_spec(),
            final(self).state_spec() is Executable,
            final(self).commands_spec() == old(self).commands_spec(),
    {
        let _ = queue;
    }

    /// Record and synchronously submit an empty command sequence: begin, end,
    /// submit, wait.
    pub fn submit_empty_cmd(&mut self, queue: u64)
        requires
            old(self).state_spec() is Initial,
        ensures
            final(self).level_spec() == old(self).level_spec(),
            final(self).state_spec() is Executable,
            final(self).commands_spec() == old(self).commands_spec(),
    {
        self.begin();
        self.end();
        self.submit_and_wait_idle(queue);
    }

    /// Record and synchronously submit the one-triangle draw: begin, begin
    /// the render pass over the full target extent, bind the graphics
    /// pipeline, draw 3 vertices in 1 instance with no offsets, end the
    /// render pass, end recording, submit, and wait until the queue is idle.
    /// The buffer must not have begun recording; afterwards it is executable
    /// and holds exactly that sequence.
    pub fn draw_triangle(&mut self, queue: u64, width: u32, height: u32)
        requires
            old(self).state_spec() is Initial,
            old(self).commands_spec().len() == 0,
        ensures
            final(self).level_spec() == old(self).level_spec(),
            final(self).state_spec() is Executable,
            final(self).commands_spec() == triangle_commands(width, height),
    {
        self.begin();
        self.record(RecordedCommand::BeginRenderPass { width, height, clear_values: 0 });
        self.record(RecordedCommand::BindGraphicsPipeline);
        self.record(
            RecordedCommand::Draw {
                vertex_count: 3,
                instance_count: 1,
                first_vertex: 0,
                first_instance: 0,
            },
        );
        self.record(RecordedCommand::EndRenderPass);
        self.end();
        self.submit_and_wait_idle(queue);
        assert(self.commands_spec() =~= triangle_commands(width, height));
    }

    /// Reset the buffer, then record and synchronously submit the
    /// full-extent blit from the optimized source image into the linear
    /// destination image: reset, begin, blit, end recording, submit, and
    /// wait until the queue is idle.  Afterwards the buffer is executable
    /// and holds exactly the blit of [`blit_description`]: the whole
    /// `width` x `height` x 1 region from zero offsets, both images in the
    /// general layout, linear filtering, over each image's single-level,
    /// single-layer color subresource.
    pub fn blit_image(&mut self, queue: u64, width: i32, height: i32)
        ensures
            final(self).level_spec() == old(self).level_spec(),
            final(self).state_spec() is Executable,
            final(self).commands_spec() == blit_commands(width, height),
    {
        self.reset();
        self.begin();
        self.record(
            RecordedCommand::BlitImage {
                blit: BlitDesc {
                    offset_x: 0,
                    offset_y: 0,
                    offset_z: 0,
                    width,
                    height,
                    depth: 1,
                    src_layout: ImageLayout::General,
                    dst_layout: ImageLayout::General,
                    linear_filter: true,
                    mip_level: 0,
                    base_array_layer: 0,
                    layer_count: 1,
                    aspect_color: true,
                },
            },
        );
        self.end();
        self.submit_and_wait_idle(queue);
        assert(self.commands_spec() =~= blit_commands(width, height));
    }
}

} // verus!

//! The commands a frame is made of, and the context through which the
//! recorder of a pass emits its share of them.

use crate::game_object::Renderable;
use crate::types::{
    Access, BindPoint, ComputePipeline, Extent2D, GraphicsPipeline, ImageLayout, PipelineStage,
    ShaderStages,
};
use vstd::prelude::*;
use vstd::slice::slice_to_vec;

verus! {

/// The pipeline a pass draws with.
#[derive(Clone, Copy, Debug, PartialEq, Eq, Structural)]
pub enum Pipeline {
    Graphics(GraphicsPipeline),
    Compute(ComputePipeline),
}

impl Pipeline {
    /// The device object.
    pub open spec fn spec_raw(&self) -> u64 {
        match *self {
            Pipeline::Graphics(pipe) => pipe.raw,
            Pipeline::Compute(pipe) => pipe.raw,
        }
    }

    /// The pipeline layout the pipeline was created with.
    pub open spec fn spec_layout(&self) -> u64 {
        match *self {
            Pipeline::Graphics(pipe) => pipe.layout,
            Pipeline::Compute(pipe) => pipe.layout,
        }
    }

    /// Where the pipeline binds.
    pub open spec fn spec_bind_point(&self) -> BindPoint {
        match *self {
            Pipeline::Graphics(_) => BindPoint::Graphics,
            Pipeline::Compute(_) => BindPoint::Compute,
        }
    }

    /// The device object.
    pub fn raw(&self) -> (r: u64)
        ensures
            r == self.spec_raw(),
    {
        match self {
            Pipeline::Graphics(pipe) => pipe.raw,
            Pipeline::Compute(pipe) => pipe.raw,
        }
    }

    /// The pipeline layout the pipeline was created with.
    pub fn layout(&self) -> (r: u64)
        ensures
            r == self.spec_layout(),
    {
        match self {
            Pipeline::Graphics(pipe) => pipe.layout,
            Pipeline::Compute(pipe) => pipe.layout,
        }
    }

    /// Where the pipeline binds.
    pub fn bind_point(&self) -> (r: BindPoint)
        ensures
            r == self.spec_bind_point(),
    {
        match self {
            Pipeline::Graphics(_) => BindPoint::Graphics,
            Pipeline::Compute(_) => BindPoint::Compute,
        }
    }
}

/// The values attachments are cleared to when a render pass begins. Colour
/// channels and depth are in 255ths.
#[derive(Clone, Copy, Debug, PartialEq, Eq, Structural)]
pub struct ClearValues {
    pub red: u8,
    pub green: u8,
    pub blue: u8,
    pub alpha: u8,
    pub depth: u8,
    pub stencil: u32,
}

impl ClearValues {
    /// The clear values of every pass: colour (5, 5, 5, 255) of 255, depth
    /// 1 and stencil 0.
    pub open spec fn standard() -> ClearValues {
        ClearValues { red: 5, green: 5, blue: 5, alpha: 255, depth: 255, stencil: 0 }
    }

    /// The clear values of every pass.
    pub fn default_clear() -> (r: ClearValues)
        ensures
            r == Self::standard(),
    {
        ClearValues { red: 5, green: 5, blue: 5, alpha: 255, depth: 255, stencil: 0 }
    }
}

/// One command in a command buffer.
#[derive(Clone, Debug, PartialEq, Eq)]
pub enum Command {
    /// Begins the command buffer.
    Begin { simultaneous_use: bool },
    /// Begins the render pass on a framebuffer; the render area is the whole
    /// extent.
    BeginRenderPass { render_pass: u64, framebuffer: u64, extent: Extent2D, clear: ClearValues },
    /// Binds a pipeline.
    BindPipeline { bind_point: BindPoint, pipeline: u64 },
    /// Binds one descriptor set at a set index.
    BindDescriptorSet { bind_point: BindPoint, layout: u64, index: u32, set: u64 },
    /// Sets the viewport to the given size at the origin, depth from 0 to 1.
    SetViewport { extent: Extent2D },
    /// Sets the scissor rectangle to the given size at the origin.
    SetScissor { extent: Extent2D },
    /// Updates push constants.
    PushConstants { layout: u64, stages: ShaderStages, offset: u32, data: Vec<u8> },
    /// Draws vertices.
    Draw { vertex_count: u32, instance_count: u32, first_vertex: u32, first_instance: u32 },
    /// Draws indexed vertices.
    DrawIndexed {
        index_count: u32,
        instance_count: u32,
        first_index: u32,
        vertex_offset: i32,
        first_instance: u32,
    },
    /// Ends the render pass.
    EndRenderPass,
    /// Moves the colour aspect of an image from one layout to another,
    /// between two pipeline stages.
    ImageBarrier {
        image: u64,
        old_layout: ImageLayout,
        new_layout: ImageLayout,
        src_stage: PipelineStage,
        dst_stage: PipelineStage,
        src_access: Access,
        dst_access: Access,
    },
    /// Ends the command buffer.
    End,
}

impl Command {
    /// Whether a recorder may emit this command: binding, dynamic state,
    /// push constants and draws, but nothing that begins or ends a render
    /// pass or a command buffer and no barrier.
    pub open spec fn is_draw_command(&self) -> bool {
        ||| *self is BindPipeline
        ||| *self is BindDescriptorSet
        ||| *self is SetViewport
        ||| *self is SetScissor
        ||| *self is PushConstants
        ||| *self is Draw
        ||| *self is DrawIndexed
    }
}

/// What a recorder is given to emit commands with. It records into the
/// command buffer of one pass, inside that pass's render pass.
pub struct PassContext {
    sets: Vec<u64>,
    resolution: Extent2D,
    cmd: u64,
    pipeline: Pipeline,
    commands: Vec<Command>,
}

impl PassContext {
    /// The descriptor sets of the pass, by set index.
    pub closed spec fn sets(&self) -> Seq<u64> {
        self.sets@
    }

    /// The resolution the pass renders at.
    pub closed spec fn extent(&self) -> Extent2D {
        self.resolution
    }

    /// The command buffer of the pass.
    pub closed spec fn command_buffer(&self) -> u64 {
        self.cmd
    }

    /// The pipeline of the pass.
    pub closed spec fn pipeline(&self) -> Pipeline {
        self.pipeline
    }

    /// The commands emitted so far.
    pub closed spec fn recorded(&self) -> Seq<Command> {
        self.commands@
    }

    /// Well-formedness: set indices fit in 32 bits and only draw commands
    /// have been emitted.
    pub open spec fn wf(&self) -> bool {
        &&& self.sets().len() <= u32::MAX
        &&& forall|i: int|
            0 <= i < self.recorded().len() ==> (#[trigger] self.recorded()[i]).is_draw_command()
    }

    /// Whether this context is `earlier` after more commands: the same pass,
    /// with what had been emitted still at the front.
    pub open spec fn continues(&self, earlier: PassContext) -> bool {
        &&& self.sets() == earlier.sets()
        &&& self.extent() == earlier.extent()
        &&& self.command_buffer() == earlier.command_buffer()
        &&& self.pipeline() == earlier.pipeline()
        &&& earlier.recorded().is_prefix_of(self.recorded())
    }

    /// The commands that bind the pass: the pipeline, each descriptor set at
    /// its index from 0 up, then viewport and scissor at the resolution.
    pub open spec fn binding_commands(&self) -> Seq<Command> {
        seq![
            Command::BindPipeline {
                bind_point: self.pipeline().spec_bind_point(),
                pipeline: self.pipeline().spec_raw(),
            },
        ] + Seq::new(
            self.sets().len(),
            |i: int|
                Command::BindDescriptorSet {
                    bind_point: self.pipeline().spec_bind_point(),
                    layout: self.pipeline().spec_layout(),
                    index: i as u32,
                    set: self.sets()[i],
                },
        ) + seq![
            Command::SetViewport { extent: self.extent() },
            Command::SetScissor { extent: self.extent() },
        ]
    }

    /// A context for one pass with nothing recorded. There is none for more
    /// descriptor sets than set indices.
    pub fn new(cmd: u64, pipeline: Pipeline, sets: Vec<u64>, resolution: Extent2D) -> (r: Option<
        PassContext,
    >)
        ensures
            r is Some <==> sets@.len() <= u32::MAX,
            r matches Some(ctx) ==> ctx.wf() && ctx.sets() == sets@ && ctx.extent() == resolution
                && ctx.command_buffer() == cmd && ctx.pipeline() == pipeline
                && ctx.recorded().len() == 0,
    {
        if sets.len() > u32::MAX as usize {
            return None;
        }
        Some(Self::start(cmd, pipeline, sets, resolution))
    }

    /// A context for one pass with nothing recorded.
    pub fn start(cmd: u64, pipeline: Pipeline, sets: Vec<u64>, resolution: Extent2D) -> (ctx:
        PassContext)
        requires
            sets@.len() <= u32::MAX,
        ensures
            ctx.wf(),
            ctx.sets() == sets@,
            ctx.extent() == resolution,
            ctx.command_buffer() == cmd,
            ctx.pipeline() == pipeline,
            ctx.recorded().len() == 0,
    {
        PassContext { sets, resolution, cmd, pipeline, commands: Vec::new() }
    }

    /// Binds the pass's pipeline and all its descriptor sets, starting at
    /// set 0, and sets viewport and scissor to the resolution.
    pub fn bind_pipeline(&mut self)
        requires
            old(self).wf(),
        ensures
            final(self).wf(),
            final(self).continues(*old(self)),
            final(self).recorded() == old(self).recorded() + old(self).binding_commands(),
    {
        let bind_point = self.pipeline.bind_point();
        let layout = self.pipeline.layout();
        self.commands.push(Command::BindPipeline { bind_point, pipeline: self.pipeline.raw() });
        let ghost head = old(self).recorded() + seq![
            Command::BindPipeline {
                bind_point: self.pipeline().spec_bind_point(),
                pipeline: self.pipeline().spec_raw(),
            },
        ];
        assert(self.commands@ =~= head);
        let mut i: usize = 0;
        while i < self.sets.len()
            invariant
                i <= self.sets@.len(),
                self.sets@.len() <= u32::MAX,
                self.sets == old(self).sets,
                self.resolution == old(self).resolution,
                self.cmd == old(self).cmd,
                self.pipeline == old(self).pipeline,
                bind_point == self.pipeline.spec_bind_point(),
                layout == self.pipeline.spec_layout(),
                self.commands@ == head + Seq::new(
                    i as nat,
                    |k: int|
                        Command::BindDescriptorSet {
                            bind_point: self.pipeline().spec_bind_point(),
                            layout: self.pipeline().spec_layout(),
                            index: k as u32,
                            set: self.sets()[k],
                        },
                ),
            decreases self.sets@.len() - i,
        {
            let ghost before = self.commands@;
            self.commands.push(
                Command::BindDescriptorSet { bind_point, layout, index: i as u32, set: self.sets[i] },
            );
            i += 1;
            assert(self.commands@ =~= head + Seq::new(
                i as nat,
                |k: int|
                    Command::BindDescriptorSet {
                        bind_point: self.pipeline().spec_bind_point(),
                        layout: self.pipeline().spec_layout(),
                        index: k as u32,
                        set: self.sets()[k],
                    },
            ));
        }
        self.commands.push(Command::SetViewport { extent: self.resolution });
        self.commands.push(Command::SetScissor { extent: self.resolution });
        assert(self.commands@ =~= old(self).recorded() + old(self).binding_commands());
    }

    /// Draws `vertex_count` vertices, one instance, from vertex 0.
    pub fn draw(&mut self, vertex_count: u32)
        requires
            old(self).wf(),
        ensures
            final(self).wf(),
            final(self).continues(*old(self)),
            final(self).recorded() == old(self).recorded().push(
                Command::Draw { vertex_count, instance_count: 1, first_vertex: 0, first_instance: 0 },
            ),
    {
        self.commands.push(
            Command::Draw { vertex_count, instance_count: 1, first_vertex: 0, first_instance: 0 },
        );
        proof {
            lemma_push_draw_command(old(self).commands@, self.commands@.last());
        }
    }

    /// Draws `index_count` indices, one instance, from index 0.
    pub fn draw_indexed(&mut self, index_count: u32)
        requires
            old(self).wf(),
        ensures
            final(self).wf(),
            final(self).continues(*old(self)),
            final(self).recorded() == old(self).recorded().push(
                Command::DrawIndexed {
                    index_count,
                    instance_count: 1,
                    first_index: 0,
                    vertex_offset: 0,
                    first_instance: 0,
                },
            ),
    {
        self.commands.push(
            Command::DrawIndexed {
                index_count,
                instance_count: 1,
                first_index: 0,
                vertex_offset: 0,
                first_instance: 0,
            },
        );
        proof {
            lemma_push_draw_command(old(self).commands@, self.commands@.last());
        }
    }

    /// Pushes `bytes` as push constants at `offset` for `stages`, through the
    /// layout of the pass's pipeline.
    pub fn push_constants(&mut self, stages: ShaderStages, offset: u32, bytes: &[u8])
        requires
            old(self).wf(),
        ensures
            final(self).wf(),
            final(self).continues(*old(self)),
            final(self).recorded().len() == old(self).recorded().len() + 1,
            final(self).recorded().last() matches Command::PushConstants {
                layout,
                stages: s,
                offset: o,
                data,
            } && layout == old(self).pipeline().spec_layout() && s == stages && o == offset
                && data@ == bytes@,
    {
        let data = slice_to_vec(bytes);
        self.commands.push(
            Command::PushConstants { layout: self.pipeline.layout(), stages, offset, data },
        );
        proof {
            lemma_push_draw_command(old(self).commands@, self.commands@.last());
        }
    }

    /// The resolution the pass renders at, as width and height.
    pub fn resolution(&self) -> (r: (u32, u32))
        ensures
            r.0 == self.extent().width,
            r.1 == self.extent().height,
    {
        (self.resolution.width, self.resolution.height)
    }

    /// The command buffer of the pass, for recorders that bind vertex or
    /// index buffers or dispatch on their own.
    pub fn cmd(&self) -> (r: u64)
        ensures
            r == self.command_buffer(),
    {
        self.cmd
    }

    /// The commands emitted so far.
    pub fn commands(&self) -> (r: &Vec<Command>)
        ensures
            r@ == self.recorded(),
    {
        &self.commands
    }

    /// Gives up the context for the commands emitted through it.
    pub fn finish(self) -> (r: Vec<Command>)
        ensures
            r@ == self.recorded(),
    {
        self.commands
    }
}

/// A list of draw commands with one more draw command at its end is a list of
/// draw commands, and starts with the list it was made from.
proof fn lemma_push_draw_command(before: Seq<Command>, last: Command)
    requires
        forall|i: int| 0 <= i < before.len() ==> (#[trigger] before[i]).is_draw_command(),
        last.is_draw_command(),
    ensures
        forall|i: int|
            0 <= i < before.push(last).len() ==> (#[trigger] before.push(last)[i]).is_draw_command(),
        before.is_prefix_of(before.push(last)),
{
}

/// The recorder of a pass: called once per frame, inside the pass's render
/// pass, with the renderables the scene lists for the pass. Whatever it does
/// goes through the context, so it can add draw commands and nothing else.
pub trait Recorder {
    fn record(&self, ctx: &mut PassContext, renderables: &[Renderable])
        requires
            old(ctx).wf(),
        ensures
            final(ctx).wf(),
            final(ctx).continues(*old(ctx)),
    ;
}

/// A recorder that emits nothing, for a pass that only clears its target.
#[derive(Clone, Copy, Debug, PartialEq, Eq, Structural)]
pub struct NoopRecorder {}

impl Recorder for NoopRecorder {
    fn record(&self, ctx: &mut PassContext, renderables: &[Renderable])
        ensures
            final(ctx).recorded() == old(ctx).recorded(),
    {
    }
}

/// A recorder that binds the pass and draws a fixed number of vertices.
#[derive(Clone, Copy, Debug, PartialEq, Eq, Structural)]
pub struct DrawRecorder {
    pub vertex_count: u32,
}

impl Recorder for DrawRecorder {
    fn record(&self, ctx: &mut PassContext, renderables: &[Renderable])
        ensures
            final(ctx).recorded() == old(ctx).recorded() + old(ctx).binding_commands().push(
                Command::Draw {
                    vertex_count: self.vertex_count,
                    instance_count: 1,
                    first_vertex: 0,
                    first_instance: 0,
                },
            ),
    {
        ctx.bind_pipeline();
        ctx.draw(self.vertex_count);
        assert(ctx.recorded() =~= old(ctx).recorded() + old(ctx).binding_commands().push(
            Command::Draw {
                vertex_count: self.vertex_count,
                instance_count: 1,
                first_vertex: 0,
                first_instance: 0,
            },
        ));
    }
}

} // verus!

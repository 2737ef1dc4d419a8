//! The compiled graph: a validated declaration together with the device
//! objects allocated for it.

use crate::queue_pool::QueueFlags;
use crate::render_context::RenderContext;
use crate::render_graph::{
    lemma_extent_keeps_validity, lemma_last_extent_counts, lemma_same_extent_changes_nothing,
    CompileError, DescriptorSetHandle, FrameBufferHandle, FrameDesc, GraphDecl, GraphFrameBuffer,
    Pass, RenderGraphBuilder, RenderTarget,
};
use crate::resources::ResourceManager;
use crate::types::{
    CommandPool, DescriptorType, Extent2D, ImageLayout, ImageView, PipelineLayout, RenderPass,
    Sampler,
};
use vstd::prelude::*;
use vstd::slice::slice_to_vec;

verus! {

/// A device object that a graph owns.
#[derive(Clone, Copy, Debug, PartialEq, Eq, Structural)]
pub enum GpuObject {
    Image(u64),
    ImageView(u64),
    FrameBuffer(u64),
    Sampler(u64),
    CommandPool(u64),
    CommandBuffer(u64),
    DescriptorSet(u64),
}

/// One descriptor update: the binding of a set is made to read an image
/// view through a sampler.
#[derive(Clone, Copy, Debug, PartialEq, Eq, Structural)]
pub struct DescriptorWrite {
    pub set: u64,
    pub binding: u32,
    pub ty: DescriptorType,
    pub layout: ImageLayout,
    pub view: ImageView,
    pub sampler: Sampler,
}

/// The device objects allocated for a graph, in the order of its
/// declaration: per transient its objects, or nothing where the device
/// could not provide them; the command pool; per swapchain image one
/// command buffer per pass; per declared set a descriptor set.
#[derive(Clone, Debug, PartialEq, Eq)]
pub struct GraphAllocation {
    pub frame_buffers: Vec<Option<GraphFrameBuffer>>,
    pub pool: CommandPool,
    pub cmd_bufs: Vec<Vec<u64>>,
    pub sets: Vec<u64>,
}

/// The objects of one transient, in the order in which they are created.
pub open spec fn transient_objects(target: Option<GraphFrameBuffer>) -> Seq<GpuObject> {
    match target {
        Some(fb) => seq![
            GpuObject::Image(fb.image.raw),
            GpuObject::ImageView(fb.image_view.raw),
            GpuObject::FrameBuffer(fb.frame.raw),
            GpuObject::Sampler(fb.sampler.raw),
        ],
        None => Seq::empty(),
    }
}

/// The objects of the first `n` transients.
pub open spec fn transients_created(targets: Seq<Option<GraphFrameBuffer>>, n: int) -> Seq<
    GpuObject,
>
    decreases n,
{
    if n <= 0 {
        Seq::empty()
    } else {
        transients_created(targets, n - 1) + transient_objects(targets[n - 1])
    }
}

/// The command buffers of the first `n` rows.
pub open spec fn buffers_created(rows: Seq<Seq<u64>>, n: int) -> Seq<GpuObject>
    decreases n,
{
    if n <= 0 {
        Seq::empty()
    } else {
        buffers_created(rows, n - 1) + Seq::new(
            rows[n - 1].len(),
            |k: int| GpuObject::CommandBuffer(rows[n - 1][k]),
        )
    }
}

/// The objects of a graph in the order of creation: those of the
/// transients, the command pool, the command buffers, the descriptor sets.
pub open spec fn objects_created(
    targets: Seq<Option<GraphFrameBuffer>>,
    pool: CommandPool,
    rows: Seq<Seq<u64>>,
    sets: Seq<u64>,
) -> Seq<GpuObject> {
    transients_created(targets, targets.len() as int) + seq![GpuObject::CommandPool(pool.raw)]
        + buffers_created(rows, rows.len() as int) + Seq::new(
        sets.len(),
        |k: int| GpuObject::DescriptorSet(sets[k]),
    )
}

impl GraphAllocation {
    /// Whether the allocation has the shape that a declaration asks for on a
    /// swapchain of `images` images.
    pub open spec fn fits(&self, decl: GraphDecl, images: nat) -> bool {
        &&& self.frame_buffers@.len() == decl.transient_keys.len()
        &&& self.sets@.len() == decl.set_keys.len()
        &&& self.cmd_bufs@.len() == images
        &&& forall|r: int|
            0 <= r < self.cmd_bufs@.len() ==> (#[trigger] self.cmd_bufs@[r])@.len()
                == decl.passes.len()
    }

    /// The command buffers, one row per swapchain image.
    pub open spec fn rows(&self) -> Seq<Seq<u64>> {
        Seq::new(self.cmd_bufs@.len(), |r: int| self.cmd_bufs@[r]@)
    }

    /// Every object of the allocation, in the order of creation.
    pub open spec fn objects(&self) -> Seq<GpuObject> {
        objects_created(self.frame_buffers@, self.pool, self.rows(), self.sets@)
    }

    /// Whether the allocation has the shape that `builder` asks for on a
    /// swapchain of `images` images.
    pub fn fits_builder(&self, builder: &RenderGraphBuilder, images: usize) -> (r: bool)
        requires
            builder.wf(),
        ensures
            r == self.fits(builder.decl(), images as nat),
    {
        if self.frame_buffers.len() != builder.transient_count() || self.sets.len()
            != builder.set_count() || self.cmd_bufs.len() != images {
            return false;
        }
        let passes = builder.pass_count();
        let mut r: usize = 0;
        while r < self.cmd_bufs.len()
            invariant
                r <= self.cmd_bufs@.len(),
                passes == builder.decl().passes.len(),
                forall|k: int| 0 <= k < r ==> (#[trigger] self.cmd_bufs@[k])@.len() == passes,
            decreases self.cmd_bufs@.len() - r,
        {
            if self.cmd_bufs[r].len() != passes {
                return false;
            }
            r += 1;
        }
        true
    }

    /// Every object of the allocation, last created first: the order in
    /// which to release them.
    pub fn release_order(&self) -> (r: Vec<GpuObject>)
        ensures
            r@ == self.objects().reverse(),
    {
        let mut created: Vec<GpuObject> = Vec::new();
        let mut i: usize = 0;
        while i < self.frame_buffers.len()
            invariant
                i <= self.frame_buffers@.len(),
                created@ == transients_created(self.frame_buffers@, i as int),
            decreases self.frame_buffers@.len() - i,
        {
            if let Some(fb) = self.frame_buffers[i] {
                created.push(GpuObject::Image(fb.image.raw));
                created.push(GpuObject::ImageView(fb.image_view.raw));
                created.push(GpuObject::FrameBuffer(fb.frame.raw));
                created.push(GpuObject::Sampler(fb.sampler.raw));
            }
            i += 1;
            assert(created@ =~= transients_created(self.frame_buffers@, i as int));
        }
        created.push(GpuObject::CommandPool(self.pool.raw));
        let ghost head = created@;
        let mut r: usize = 0;
        while r < self.cmd_bufs.len()
            invariant
                r <= self.cmd_bufs@.len(),
                created@ == head + buffers_created(self.rows(), r as int),
            decreases self.cmd_bufs@.len() - r,
        {
            let row = &self.cmd_bufs[r];
            let ghost before = created@;
            let mut k: usize = 0;
            while k < row.len()
                invariant
                    k <= row@.len(),
                    created@ == before + Seq::new(
                        k as nat,
                        |x: int| GpuObject::CommandBuffer(row@[x]),
                    ),
                decreases row@.len() - k,
            {
                created.push(GpuObject::CommandBuffer(row[k]));
                k += 1;
                assert(created@ =~= before + Seq::new(
                    k as nat,
                    |x: int| GpuObject::CommandBuffer(row@[x]),
                ));
            }
            r += 1;
            assert(self.rows()[r - 1] == row@);
            assert(created@ =~= head + buffers_created(self.rows(), r as int));
        }
        let ghost middle = created@;
        let mut k: usize = 0;
        while k < self.sets.len()
            invariant
                k <= self.sets@.len(),
                created@ == middle + Seq::new(
                    k as nat,
                    |x: int| GpuObject::DescriptorSet(self.sets@[x]),
                ),
            decreases self.sets@.len() - k,
        {
            created.push(GpuObject::DescriptorSet(self.sets[k]));
            k += 1;
            assert(created@ =~= middle + Seq::new(
                k as nat,
                |x: int| GpuObject::DescriptorSet(self.sets@[x]),
            ));
        }
        assert(created@ =~= self.objects());
        reversed(&created)
    }
}

/// The objects of `objects`, last first.
pub fn reversed(objects: &Vec<GpuObject>) -> (r: Vec<GpuObject>)
    ensures
        r@ == objects@.reverse(),
{
    let mut out: Vec<GpuObject> = Vec::new();
    let n = objects.len();
    let mut i: usize = 0;
    while i < n
        invariant
            n == objects@.len(),
            i <= n,
            out@.len() == i,
            forall|k: int| 0 <= k < i ==> out@[k] == objects@[n - 1 - k],
        decreases n - i,
    {
        out.push(objects[n - 1 - i]);
        i += 1;
    }
    assert(out@ =~= objects@.reverse());
    out
}

/// What to allocate for one transient: a 2D image of the declared extent,
/// format and usage; a colour view of it in the same format; a sampler with
/// default settings; and a framebuffer of the declared extent for the
/// render pass, with the colour view as attachment 0 and the shared depth
/// view as attachment 1.
#[derive(Clone, Copy, Debug, PartialEq, Eq, Structural)]
pub struct TransientRequest {
    pub handle: FrameBufferHandle,
    pub desc: FrameDesc,
    pub render_pass: RenderPass,
    pub depth_view: ImageView,
    pub layers: u32,
}

/// What to allocate for a graph, in the order in which to allocate it: the
/// transients; a command pool whose buffers can be reset one by one; for
/// each swapchain image as many primary command buffers as there are
/// passes; and one descriptor set per declared set, of the set's layout.
#[derive(Clone, Debug, PartialEq, Eq)]
pub struct AllocationPlan {
    pub transients: Vec<TransientRequest>,
    pub reset_command_buffer: bool,
    pub images: usize,
    pub buffers_per_image: u32,
    pub set_layouts: Vec<u64>,
}

impl RenderGraphBuilder {
    /// What to allocate for the `i`-th transient on this swapchain.
    pub open spec fn request_of(&self, ctx: &RenderContext, i: int) -> TransientRequest {
        TransientRequest {
            handle: FrameBufferHandle { key: self.decl().transient_keys[i] },
            desc: self.decl().transients[i],
            render_pass: ctx.window.offscreen_pass(),
            depth_view: ctx.window.depth().1,
            layers: 1,
        }
    }

    /// What to allocate for the graph on a swapchain, before it is compiled.
    pub fn allocation_plan(&self, ctx: &RenderContext) -> (r: AllocationPlan)
        requires
            self.wf(),
        ensures
            r.transients@ == Seq::new(
                self.decl().transients.len(),
                |i: int| self.request_of(ctx, i),
            ),
            r.reset_command_buffer,
            r.images == ctx.window.syncs().len(),
            r.buffers_per_image == self.decl().passes.len(),
            r.set_layouts@ == Seq::new(
                self.decl().set_layouts.len(),
                |i: int| self.decl().set_layouts[i].raw,
            ),
    {
        let mut transients: Vec<TransientRequest> = Vec::new();
        let n = self.transient_count();
        let mut i: usize = 0;
        while i < n
            invariant
                self.wf(),
                n == self.decl().transients.len(),
                i <= n,
                transients@.len() == i,
                forall|k: int| 0 <= k < i ==> transients@[k] == self.request_of(ctx, k),
            decreases n - i,
        {
            transients.push(
                TransientRequest {
                    handle: self.transient_handle(i),
                    desc: self.transient_desc(i),
                    render_pass: ctx.window.transient_pass(),
                    depth_view: ctx.window.depth_view(),
                    layers: 1,
                },
            );
            i += 1;
        }
        let mut set_layouts: Vec<u64> = Vec::new();
        let m = self.set_count();
        let mut i: usize = 0;
        while i < m
            invariant
                self.wf(),
                m == self.decl().set_layouts.len(),
                i <= m,
                set_layouts@.len() == i,
                forall|k: int| 0 <= k < i ==> set_layouts@[k] == self.decl().set_layouts[k].raw,
            decreases m - i,
        {
            set_layouts.push(self.set_layout(i).raw);
            i += 1;
        }
        proof {
            assert(transients@ =~= Seq::new(
                self.decl().transients.len(),
                |i: int| self.request_of(ctx, i),
            ));
            assert(set_layouts@ =~= Seq::new(
                self.decl().set_layouts.len(),
                |i: int| self.decl().set_layouts[i].raw,
            ));
        }
        AllocationPlan {
            transients,
            reset_command_buffer: true,
            images: ctx.window.image_count(),
            buffers_per_image: self.pass_count() as u32,
            set_layouts,
        }
    }
}

/// Why a graph could not be built, and what to do about the objects that
/// had been allocated for it.
#[derive(Clone, Debug, PartialEq, Eq)]
pub struct CompileFailure {
    pub error: CompileError,
    /// Every object of the allocation, last created first.
    pub release: Vec<GpuObject>,
}

/// The device objects of a compiled graph's transients and sets, each list
/// in the order of declaration.
pub struct RenderGraphResources {
    frame_buffer: Vec<GraphFrameBuffer>,
    set: Vec<u64>,
}

impl RenderGraphResources {
    /// The objects of the transients.
    pub closed spec fn frames(&self) -> Seq<GraphFrameBuffer> {
        self.frame_buffer@
    }

    /// The descriptor sets.
    pub closed spec fn sets(&self) -> Seq<u64> {
        self.set@
    }

    /// No resources.
    pub fn new() -> (r: RenderGraphResources)
        ensures
            r.frames().len() == 0,
            r.sets().len() == 0,
    {
        RenderGraphResources { frame_buffer: Vec::new(), set: Vec::new() }
    }
}

/// A graph that can be executed: a valid declaration, the device objects of
/// its transients and sets, and one command buffer per swapchain image and
/// pass.
pub struct RenderGraph {
    queue: u64,
    pool: CommandPool,
    resources: RenderGraphResources,
    source: RenderGraphBuilder,
    cmd_bufs: Vec<Vec<u64>>,
    targets: Vec<Option<GraphFrameBuffer>>,
    bound: Vec<Vec<u64>>,
}

impl RenderGraph {
    /// What the graph declares.
    pub closed spec fn decl(&self) -> GraphDecl {
        self.source.decl()
    }

    /// The objects of the transients, in the order of declaration.
    pub closed spec fn frames(&self) -> Seq<GraphFrameBuffer> {
        self.resources.frames()
    }

    /// The descriptor sets, in the order of declaration.
    pub closed spec fn sets(&self) -> Seq<u64> {
        self.resources.sets()
    }

    /// The command buffers: `buffers()[i][j]` records pass `j` of a frame
    /// drawn to swapchain image `i`.
    pub closed spec fn buffers(&self) -> Seq<Seq<u64>> {
        Seq::new(self.cmd_bufs@.len(), |r: int| self.cmd_bufs@[r]@)
    }

    /// The queue that frames are submitted to.
    pub closed spec fn queue_handle(&self) -> u64 {
        self.queue
    }

    /// The pool the command buffers come from.
    pub closed spec fn command_pool(&self) -> CommandPool {
        self.pool
    }

    /// The descriptor sets of pass `j`, by set index.
    pub closed spec fn pass_sets(&self, j: int) -> Seq<u64> {
        self.bound@[j]@
    }

    /// The objects of the transient `t`.
    pub open spec fn frame_of(&self, t: FrameBufferHandle) -> GraphFrameBuffer {
        self.frames()[self.decl().transient_keys.index_of(t.key)]
    }

    /// The descriptor set `s`.
    pub open spec fn set_of(&self, s: DescriptorSetHandle) -> u64 {
        self.sets()[self.decl().set_keys.index_of(s.key)]
    }

    /// The objects of the transient that pass `j` renders into, if it does
    /// not render into the swapchain.
    pub open spec fn target_frame(&self, j: int) -> Option<GraphFrameBuffer> {
        match self.decl().passes[j].target {
            RenderTarget::Swapchain => None,
            RenderTarget::FrameBuffer(t) => Some(self.frame_of(t)),
        }
    }

    /// The extent that the transient `t` is declared with.
    pub open spec fn extent_of(&self, t: FrameBufferHandle) -> Extent2D {
        let desc = self.decl().transients[self.decl().transient_keys.index_of(t.key)];
        Extent2D { width: desc.width, height: desc.height }
    }

    /// The extent of the transient that pass `j` renders into, if it does
    /// not render into the swapchain.
    pub open spec fn target_extent(&self, j: int) -> Option<Extent2D> {
        match self.decl().passes[j].target {
            RenderTarget::Swapchain => None,
            RenderTarget::FrameBuffer(t) => Some(self.extent_of(t)),
        }
    }

    /// The descriptor update that edge `i` stands for: the binding of its
    /// set reads the colour view of its transient, in the layout for shader
    /// reads, through the transient's sampler.
    pub open spec fn write_of(&self, i: int) -> DescriptorWrite {
        let edge = self.decl().binds[i];
        DescriptorWrite {
            set: self.set_of(edge.set),
            binding: edge.bind,
            ty: DescriptorType::CombinedImageSampler,
            layout: ImageLayout::ShaderReadOnlyOptimal,
            view: self.frame_of(edge.frame).image_view,
            sampler: self.frame_of(edge.frame).sampler,
        }
    }

    /// The descriptor updates of the graph, one per edge, in the order of the
    /// edges.
    pub open spec fn writes(&self) -> Seq<DescriptorWrite> {
        Seq::new(self.decl().binds.len(), |i: int| self.write_of(i))
    }

    /// What was looked up at compile time is what the declaration says.
    pub closed spec fn plans_agree(&self) -> bool {
        &&& self.source.wf()
        &&& self.targets@.len() == self.decl().passes.len()
        &&& self.bound@.len() == self.decl().passes.len()
        &&& forall|j: int|
            0 <= j < self.targets@.len() ==> #[trigger] self.targets@[j] == self.target_frame(j)
    }

    /// Well-formedness: the declaration is valid, every transient and set
    /// has its objects, every swapchain image has one command buffer per
    /// pass, and each pass has its sets by set index.
    pub open spec fn wf(&self) -> bool {
        let d = self.decl();
        &&& self.plans_agree()
        &&& d.wf()
        &&& d.binds_resolve()
        &&& d.targets_known()
        &&& d.targets_unique()
        &&& d.producers_first()
        &&& self.frames().len() == d.transient_keys.len()
        &&& self.sets().len() == d.set_keys.len()
        &&& forall|r: int|
            0 <= r < self.buffers().len() ==> (#[trigger] self.buffers()[r]).len() == d.passes.len()
        &&& forall|j: int|
            0 <= j < d.passes.len() ==> (#[trigger] self.pass_sets(j)).len()
                == d.passes[j].bind_sets@.len() && self.pass_sets(j).len() <= u32::MAX
        &&& forall|j: int, k: int|
            0 <= j < d.passes.len() && 0 <= k < d.passes[j].bind_sets@.len() ==> {
                let bound = #[trigger] d.passes[j].bind_sets@[k];
                &&& bound.set < self.pass_sets(j).len()
                &&& d.set_keys.contains(bound.set_handle.key)
                &&& self.pass_sets(j)[bound.set as int] == self.set_of(bound.set_handle)
            }
    }

    /// The queue that frames are submitted to.
    pub fn queue(&self) -> (r: u64)
        ensures
            r == self.queue_handle(),
    {
        self.queue
    }

    /// The pool the command buffers come from.
    pub fn pool(&self) -> (r: CommandPool)
        ensures
            r == self.command_pool(),
    {
        self.pool
    }

    /// The number of passes.
    pub fn pass_count(&self) -> (n: usize)
        ensures
            n == self.decl().passes.len(),
    {
        self.source.pass_count()
    }

    /// The number of swapchain images the graph has command buffers for.
    pub fn image_count(&self) -> (n: usize)
        ensures
            n == self.buffers().len(),
    {
        self.cmd_bufs.len()
    }

    /// The number of transients.
    pub fn transient_count(&self) -> (n: usize)
        ensures
            n == self.frames().len(),
    {
        self.resources.frame_buffer.len()
    }

    /// The command buffer that records pass `j` of a frame drawn to
    /// swapchain image `image_index`.
    pub fn command_buffer(&self, image_index: usize, j: usize) -> (r: u64)
        requires
            self.wf(),
            image_index < self.buffers().len(),
            j < self.decl().passes.len(),
        ensures
            r == self.buffers()[image_index as int][j as int],
    {
        assert(self.buffers()[image_index as int].len() == self.decl().passes.len());
        self.cmd_bufs[image_index][j]
    }

    /// The `j`-th pass.
    pub fn source_pass(&self, j: usize) -> (r: &Pass)
        requires
            j < self.decl().passes.len(),
        ensures
            *r == self.decl().passes[j as int],
    {
        self.source.pass(j)
    }

    /// The objects of the transient that pass `j` renders into, if it does
    /// not render into the swapchain.
    pub fn planned_target(&self, j: usize) -> (r: Option<GraphFrameBuffer>)
        requires
            self.wf(),
            j < self.decl().passes.len(),
        ensures
            r == self.target_frame(j as int),
    {
        self.targets[j]
    }

    /// The extent of the transient that pass `j` renders into, if it does
    /// not render into the swapchain.
    pub fn planned_extent(&self, j: usize) -> (r: Option<Extent2D>)
        requires
            self.wf(),
            j < self.decl().passes.len(),
        ensures
            r == self.target_extent(j as int),
    {
        proof {
            self.lemma_source_wf();
        }
        assert(!self.decl().target_unknown(j as int));
        match self.source.pass(j).target {
            RenderTarget::Swapchain => None,
            RenderTarget::FrameBuffer(t) => match self.source.transient_position(t) {
                Some(p) => {
                    let desc = self.source.transient_desc(p);
                    Some(Extent2D { width: desc.width, height: desc.height })
                },
                None => None,
            },
        }
    }

    /// The declaration underneath a well-formed graph is well-formed.
    proof fn lemma_source_wf(&self)
        requires
            self.wf(),
        ensures
            self.source.wf(),
    {
    }

    /// The descriptor sets of pass `j`, by set index.
    pub fn planned_sets(&self, j: usize) -> (r: Vec<u64>)
        requires
            self.wf(),
            j < self.decl().passes.len(),
        ensures
            r@ == self.pass_sets(j as int),
    {
        slice_to_vec(self.bound[j].as_slice())
    }

    /// Whether this graph is `before` with its transients declared anew at
    /// `extent` and given the objects `frames`: everything else, and so
    /// every handle, every set and every command buffer, is as it was.
    pub open spec fn resized_from(
        &self,
        before: &RenderGraph,
        extent: Extent2D,
        frames: Seq<GraphFrameBuffer>,
    ) -> bool {
        &&& self.decl() == before.decl().at_extent(extent)
        &&& self.frames() == frames
        &&& self.sets() == before.sets()
        &&& self.buffers() == before.buffers()
        &&& self.queue_handle() == before.queue_handle()
        &&& self.command_pool() == before.command_pool()
        &&& forall|j: int|
            0 <= j < self.decl().passes.len() ==> #[trigger] self.pass_sets(j) == before.pass_sets(
                j,
            )
    }

    /// Every object the graph owns, in the order of creation.
    pub open spec fn owned(&self) -> Seq<GpuObject> {
        objects_created(
            Seq::new(self.frames().len(), |i: int| Some(self.frames()[i])),
            self.command_pool(),
            self.buffers(),
            self.sets(),
        )
    }

    /// Gives up the graph for the objects it owns, last created first: the
    /// order in which to release them once the device is idle.
    pub fn teardown(self) -> (r: Vec<GpuObject>)
        ensures
            r@ == self.owned().reverse(),
    {
        let mut frame_buffers: Vec<Option<GraphFrameBuffer>> = Vec::new();
        let mut i: usize = 0;
        while i < self.resources.frame_buffer.len()
            invariant
                i <= self.resources.frame_buffer@.len(),
                frame_buffers@.len() == i,
                forall|k: int| 0 <= k < i ==> frame_buffers@[k] == Some(self.frames()[k]),
                self.frames() == self.resources.frame_buffer@,
            decreases self.resources.frame_buffer@.len() - i,
        {
            frame_buffers.push(Some(self.resources.frame_buffer[i]));
            i += 1;
        }
        let allocation = GraphAllocation {
            frame_buffers,
            pool: self.pool,
            cmd_bufs: self.cmd_bufs,
            sets: self.resources.set,
        };
        proof {
            assert(allocation.frame_buffers@ =~= Seq::new(
                self.frames().len(),
                |i: int| Some(self.frames()[i]),
            ));
            assert(allocation.rows() =~= self.buffers());
        }
        allocation.release_order()
    }

    /// The objects of the transients, last created first.
    pub open spec fn transient_release(&self) -> Seq<GpuObject> {
        transients_created(
            Seq::new(self.frames().len(), |i: int| Some(self.frames()[i])),
            self.frames().len() as int,
        ).reverse()
    }

    /// Rebuilds the transients at a new extent: declares each anew at
    /// `extent`, takes `frame_buffers` as their objects, and returns the
    /// objects they had, last created first, for the caller to release. The
    /// descriptor updates of the graph then read the new objects.
    pub fn resize(&mut self, extent: Extent2D, frame_buffers: Vec<GraphFrameBuffer>) -> (released:
        Vec<GpuObject>)
        requires
            old(self).wf(),
            frame_buffers@.len() == old(self).frames().len(),
        ensures
            final(self).wf(),
            final(self).resized_from(old(self), extent, frame_buffers@),
            released@ == old(self).transient_release(),
    {
        let mut created: Vec<GpuObject> = Vec::new();
        let ghost targets = Seq::new(self.frames().len(), |i: int| Some(self.frames()[i]));
        let mut i: usize = 0;
        while i < self.resources.frame_buffer.len()
            invariant
                i <= self.resources.frame_buffer@.len(),
                targets == Seq::new(self.frames().len(), |i: int| Some(self.frames()[i])),
                self.frames() == self.resources.frame_buffer@,
                created@ == transients_created(targets, i as int),
            decreases self.resources.frame_buffer@.len() - i,
        {
            let fb = self.resources.frame_buffer[i];
            created.push(GpuObject::Image(fb.image.raw));
            created.push(GpuObject::ImageView(fb.image_view.raw));
            created.push(GpuObject::FrameBuffer(fb.frame.raw));
            created.push(GpuObject::Sampler(fb.sampler.raw));
            i += 1;
            assert(created@ =~= transients_created(targets, i as int));
        }
        let released = reversed(&created);
        let ghost d = self.decl();
        proof {
            lemma_extent_keeps_validity(d, extent, Map::empty());
        }
        self.source.set_transient_extent(extent);
        self.resources.frame_buffer = frame_buffers;
        let n = self.source.pass_count();
        let mut fresh: Vec<Option<GraphFrameBuffer>> = Vec::new();
        let mut j: usize = 0;
        while j < n
            invariant
                old(self).wf(),
                d == old(self).decl(),
                self.bound == old(self).bound,
                self.cmd_bufs == old(self).cmd_bufs,
                self.resources.set == old(self).resources.set,
                self.queue == old(self).queue,
                self.pool == old(self).pool,
                self.source.wf(),
                self.decl() == d.at_extent(extent),
                d.targets_known(),
                self.frames() == frame_buffers@,
                self.frames() == self.resources.frame_buffer@,
                self.frames().len() == d.transient_keys.len(),
                n == self.decl().passes.len(),
                j <= n,
                fresh@.len() == j,
                forall|m: int| 0 <= m < j ==> #[trigger] fresh@[m] == self.target_frame(m),
            decreases n - j,
        {
            assert(!d.target_unknown(j as int));
            let target = match self.source.pass(j).target {
                RenderTarget::Swapchain => None,
                RenderTarget::FrameBuffer(t) => match self.source.transient_position(t) {
                    Some(p) => Some(self.resources.frame_buffer[p]),
                    None => None,
                },
            };
            fresh.push(target);
            j += 1;
        }
        self.targets = fresh;
        proof {
            let e = self.decl();
            assert(self.buffers() == old(self).buffers());
            assert(self.sets() == old(self).sets());
            assert forall|j: int| 0 <= j < e.passes.len() implies #[trigger] self.pass_sets(j)
                == old(self).pass_sets(j) by {}
            assert forall|j: int, k: int|
                0 <= j < e.passes.len() && 0 <= k < e.passes[j].bind_sets@.len() implies {
                let b = #[trigger] e.passes[j].bind_sets@[k];
                &&& b.set < self.pass_sets(j).len()
                &&& e.set_keys.contains(b.set_handle.key)
                &&& self.pass_sets(j)[b.set as int] == self.set_of(b.set_handle)
            } by {
                let b = d.passes[j].bind_sets@[k];
                assert(old(self).pass_sets(j)[b.set as int] == old(self).set_of(b.set_handle));
            }
        }
        released
    }

    /// The command buffers of a swapchain image, one per pass.
    pub fn command_buffers(&self, image_index: usize) -> (r: Vec<u64>)
        requires
            image_index < self.buffers().len(),
        ensures
            r@ == self.buffers()[image_index as int],
    {
        slice_to_vec(self.cmd_bufs[image_index].as_slice())
    }

    /// The objects of the transient `handle`, if the graph has it.
    pub fn frame_buffer(&self, handle: FrameBufferHandle) -> (r: Option<GraphFrameBuffer>)
        requires
            self.wf(),
        ensures
            match r {
                Some(fb) => self.decl().transient_keys.contains(handle.key) && fb
                    == self.frame_of(handle),
                None => !self.decl().transient_keys.contains(handle.key),
            },
    {
        match self.source.transient_position(handle) {
            Some(i) => Some(self.resources.frame_buffer[i]),
            None => None,
        }
    }

    /// The descriptor set `handle`, if the graph has it.
    pub fn descriptor_set(&self, handle: DescriptorSetHandle) -> (r: Option<u64>)
        requires
            self.wf(),
        ensures
            match r {
                Some(set) => self.decl().set_keys.contains(handle.key) && set == self.set_of(
                    handle,
                ),
                None => !self.decl().set_keys.contains(handle.key),
            },
    {
        match self.source.set_position(handle) {
            Some(i) => Some(self.resources.set[i]),
            None => None,
        }
    }

    /// The descriptor updates of the graph, to be flushed in one batch.
    pub fn descriptor_writes(&self) -> (r: Vec<DescriptorWrite>)
        requires
            self.wf(),
        ensures
            r@ == self.writes(),
    {
        let mut out: Vec<DescriptorWrite> = Vec::new();
        let n = self.source.bind_count();
        let mut i: usize = 0;
        while i < n
            invariant
                self.wf(),
                n == self.decl().binds.len(),
                i <= n,
                out@.len() == i,
                forall|k: int| 0 <= k < i ==> out@[k] == self.write_of(k),
            decreases n - i,
        {
            let edge = self.source.bind(i);
            assert(!self.decl().bind_dangling(i as int));
            let set = match self.source.set_position(edge.set) {
                Some(p) => self.resources.set[p],
                None => 0,
            };
            let (view, sampler) = match self.source.transient_position(edge.frame) {
                Some(p) => {
                    let fb = self.resources.frame_buffer[p];
                    (fb.image_view, fb.sampler)
                },
                None => (ImageView { raw: 0 }, Sampler { raw: 0 }),
            };
            out.push(
                DescriptorWrite {
                    set,
                    binding: edge.bind,
                    ty: DescriptorType::CombinedImageSampler,
                    layout: ImageLayout::ShaderReadOnlyOptimal,
                    view,
                    sampler,
                },
            );
            i += 1;
        }
        assert(out@ =~= self.writes());
        out
    }
}

/// Resizing away and back changes nothing.
///
/// Take a graph whose transients all have the extent `home`, resize it to
/// another extent, and resize the result back to `home`, giving the
/// transients the objects they had at first. Then the graph declares what it
/// declared at first, transient extents included, and its descriptor
/// updates are the same, down to the last field.
pub proof fn lemma_resize_round_trip(
    start: &RenderGraph,
    away: &RenderGraph,
    back: &RenderGraph,
    home: Extent2D,
    other: Extent2D,
    frames_away: Seq<GraphFrameBuffer>,
)
    requires
        start.decl().all_at_extent(home),
        away.resized_from(start, other, frames_away),
        back.resized_from(away, home, start.frames()),
    ensures
        back.decl() == start.decl(),
        back.frames() == start.frames(),
        back.sets() == start.sets(),
        back.buffers() == start.buffers(),
        back.writes() == start.writes(),
{
    lemma_last_extent_counts(start.decl(), other, home);
    lemma_same_extent_changes_nothing(start.decl(), home);
    assert(back.writes() =~= start.writes());
}

/// The descriptor sets that a pass binds, by set index.
fn sets_by_index(builder: &RenderGraphBuilder, j: usize, sets: &Vec<u64>, Ghost(layouts): Ghost<
    Map<u64, PipelineLayout>,
>) -> (r: Vec<u64>)
    requires
        builder.wf(),
        j < builder.decl().passes.len(),
        builder.decl().pass_layout_ok(j as int, layouts),
        sets@.len() == builder.decl().set_keys.len(),
    ensures
        r@.len() == builder.decl().passes[j as int].bind_sets@.len(),
        forall|k: int|
            0 <= k < r@.len() ==> {
                let bound = #[trigger] builder.decl().passes[j as int].bind_sets@[k];
                r@[bound.set as int] == sets@[builder.decl().set_keys.index_of(
                    bound.set_handle.key,
                )]
            },
{
    let pass = builder.pass(j);
    let n = pass.bind_sets.len();
    let mut out: Vec<u64> = Vec::new();
    let mut i: usize = 0;
    while i < n
        invariant
            i <= n,
            out@.len() == i,
        decreases n - i,
    {
        out.push(0);
        i += 1;
    }
    let ghost d = builder.decl();
    let mut k: usize = 0;
    while k < n
        invariant
            builder.wf(),
            d == builder.decl(),
            j < d.passes.len(),
            *pass == d.passes[j as int],
            d.pass_layout_ok(j as int, layouts),
            sets@.len() == d.set_keys.len(),
            n == pass.bind_sets@.len(),
            out@.len() == n,
            k <= n,
            forall|m: int|
                0 <= m < k ==> {
                    let bound = #[trigger] pass.bind_sets@[m];
                    out@[bound.set as int] == sets@[d.set_keys.index_of(bound.set_handle.key)]
                },
        decreases n - k,
    {
        let bound = pass.bind_sets[k];
        let ghost before = out@;
        match builder.set_position(bound.set_handle) {
            Some(p) => {
                out.set(bound.set as usize, sets[p]);
            },
            None => {},
        }
        proof {
            assert forall|m: int| 0 <= m < k + 1 implies {
                let b = #[trigger] pass.bind_sets@[m];
                out@[b.set as int] == sets@[d.set_keys.index_of(b.set_handle.key)]
            } by {
                if m < k {
                    assert(pass.bind_sets@[m].set != pass.bind_sets@[k as int].set);
                }
            }
        }
        k += 1;
    }
    out
}

impl RenderGraphBuilder {
    /// Whether the graph compiles against an allocation: it is valid, the
    /// device has a graphics queue, and every transient got its objects.
    pub open spec fn compiles(&self, ctx: &RenderContext, layouts: &ResourceManager, allocation:
        &GraphAllocation) -> bool {
        &&& self.decl().valid(layouts.layouts())
        &&& exists|i: int| ctx.queue_pool.family_can(i, QueueFlags::only_graphics())
        &&& forall|i: int|
            0 <= i < allocation.frame_buffers@.len() ==> allocation.frame_buffers@[i] is Some
    }

    /// Whether `error` is why the graph does not compile. A broken rule
    /// comes before a missing queue, and that before a transient without
    /// objects, of which the first is reported.
    pub open spec fn refuses(
        &self,
        ctx: &RenderContext,
        layouts: &ResourceManager,
        allocation: &GraphAllocation,
        error: CompileError,
    ) -> bool {
        if !self.decl().valid(layouts.layouts()) {
            self.decl().explains(layouts.layouts(), error)
        } else if forall|i: int| !ctx.queue_pool.family_can(i, QueueFlags::only_graphics()) {
            error == CompileError::NoGraphicsQueue
        } else {
            exists|i: int|
                0 <= i < allocation.frame_buffers@.len() && #[trigger] allocation.frame_buffers@[i]
                    is None && error == CompileError::TransientAllocation(
                    FrameBufferHandle { key: self.decl().transient_keys[i] },
                ) && forall|k: int| 0 <= k < i ==> allocation.frame_buffers@[k] is Some
        }
    }

    /// Compiles the graph against the objects allocated for it.
    ///
    /// The declaration is validated first. A graph that compiles keeps its
    /// passes in the order in which they were added and takes over the
    /// allocation as it is. One that does not compile is dropped, and the
    /// failure lists every object of the allocation, last created first, for
    /// the caller to release.
    pub fn compile(
        self,
        ctx: &RenderContext,
        layouts: &ResourceManager,
        allocation: GraphAllocation,
    ) -> (r: Result<RenderGraph, CompileFailure>)
        requires
            self.wf(),
            layouts.wf(),
            ctx.queue_pool.wf(),
            allocation.fits(self.decl(), ctx.window.syncs().len()),
        ensures
            r is Ok <==> self.compiles(ctx, layouts, &allocation),
            r matches Ok(graph) ==> {
                &&& graph.wf()
                &&& graph.decl() == self.decl()
                &&& graph.frames().len() == allocation.frame_buffers@.len()
                &&& forall|i: int|
                    0 <= i < graph.frames().len() ==> allocation.frame_buffers@[i] == Some(
                        #[trigger] graph.frames()[i],
                    )
                &&& graph.sets() == allocation.sets@
                &&& graph.buffers() == allocation.rows()
                &&& graph.buffers().len() == ctx.window.syncs().len()
                &&& graph.command_pool() == allocation.pool
                &&& ctx.queue_pool.serves(graph.queue_handle(), QueueFlags::only_graphics())
            },
            r matches Err(failure) ==> self.refuses(ctx, layouts, &allocation, failure.error)
                && failure.release@ == allocation.objects().reverse(),
    {
        if let Err(error) = self.validate(layouts) {
            return Err(CompileFailure { error, release: allocation.release_order() });
        }
        let queue = match ctx.queue_pool.get_queue(QueueFlags::graphics()) {
            Some(queue) => queue,
            None => {
                return Err(
                    CompileFailure {
                        error: CompileError::NoGraphicsQueue,
                        release: allocation.release_order(),
                    },
                );
            },
        };
        let ghost d = self.decl();
        let mut frames: Vec<GraphFrameBuffer> = Vec::new();
        let mut i: usize = 0;
        while i < allocation.frame_buffers.len()
            invariant
                self.wf(),
                d == self.decl(),
                d.valid(layouts.layouts()),
                ctx.queue_pool.serves(queue, QueueFlags::only_graphics()),
                allocation.frame_buffers@.len() == d.transient_keys.len(),
                i <= allocation.frame_buffers@.len(),
                frames@.len() == i,
                forall|k: int| 0 <= k < i ==> allocation.frame_buffers@[k] == Some(frames@[k]),
            decreases allocation.frame_buffers@.len() - i,
        {
            match allocation.frame_buffers[i] {
                Some(fb) => {
                    frames.push(fb);
                },
                None => {
                    let handle = self.transient_handle(i);
                    assert(handle == FrameBufferHandle { key: d.transient_keys[i as int] });
                    return Err(
                        CompileFailure {
                            error: CompileError::TransientAllocation(handle),
                            release: allocation.release_order(),
                        },
                    );
                },
            }
            i += 1;
        }
        let passes = self.pass_count();
        let mut targets: Vec<Option<GraphFrameBuffer>> = Vec::new();
        let mut bound: Vec<Vec<u64>> = Vec::new();
        let mut j: usize = 0;
        while j < passes
            invariant
                self.wf(),
                d == self.decl(),
                d.valid(layouts.layouts()),
                passes == d.passes.len(),
                frames@.len() == d.transient_keys.len(),
                allocation.sets@.len() == d.set_keys.len(),
                j <= passes,
                targets@.len() == j,
                bound@.len() == j,
                forall|m: int|
                    0 <= m < j ==> #[trigger] targets@[m] == (match d.passes[m].target {
                        RenderTarget::Swapchain => None,
                        RenderTarget::FrameBuffer(t) => Some(
                            frames@[d.transient_keys.index_of(t.key)],
                        ),
                    }),
                forall|m: int|
                    0 <= m < j ==> (#[trigger] bound@[m])@.len() == d.passes[m].bind_sets@.len(),
                forall|m: int, k: int|
                    0 <= m < j && 0 <= k < d.passes[m].bind_sets@.len() ==> {
                        let b = #[trigger] d.passes[m].bind_sets@[k];
                        bound@[m]@[b.set as int] == allocation.sets@[d.set_keys.index_of(
                            b.set_handle.key,
                        )]
                    },
            decreases passes - j,
        {
            assert(d.pass_layout_ok(j as int, layouts.layouts()));
            assert(!d.target_unknown(j as int));
            let target = match self.pass(j).target {
                RenderTarget::Swapchain => None,
                RenderTarget::FrameBuffer(t) => match self.transient_position(t) {
                    Some(p) => Some(frames[p]),
                    None => None,
                },
            };
            let sets = sets_by_index(&self, j, &allocation.sets, Ghost(layouts.layouts()));
            targets.push(target);
            bound.push(sets);
            j += 1;
        }
        let graph = RenderGraph {
            queue,
            pool: allocation.pool,
            resources: RenderGraphResources { frame_buffer: frames, set: allocation.sets },
            source: self,
            cmd_bufs: allocation.cmd_bufs,
            targets,
            bound,
        };
        proof {
            assert(graph.buffers() =~= allocation.rows());
            assert forall|r: int| 0 <= r < graph.buffers().len() implies (
            #[trigger] graph.buffers()[r]).len() == d.passes.len() by {
                assert(allocation.cmd_bufs@[r]@.len() == d.passes.len());
            }
            assert forall|j: int, k: int|
                0 <= j < d.passes.len() && 0 <= k < d.passes[j].bind_sets@.len() implies {
                let bound = #[trigger] d.passes[j].bind_sets@[k];
                &&& bound.set < graph.pass_sets(j).len()
                &&& d.set_keys.contains(bound.set_handle.key)
                &&& graph.pass_sets(j)[bound.set as int] == graph.set_of(bound.set_handle)
            } by {
                assert(d.pass_layout_ok(j, layouts.layouts()));
            }
            assert forall|j: int| 0 <= j < d.passes.len() implies (#[trigger] graph.pass_sets(
                j,
            )).len() == d.passes[j].bind_sets@.len() && graph.pass_sets(j).len() <= u32::MAX by {
                assert(d.pass_layout_ok(j, layouts.layouts()));
                assert(graph.bound@[j]@.len() == d.passes[j].bind_sets@.len());
            }
        }
        Ok(graph)
    }
}

} // verus!

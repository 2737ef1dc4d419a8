//! The passes of the world renderer, as they declare themselves to a graph.
//! Pipelines and layouts are created on the device beforehand and handed in.

use crate::command::{DrawRecorder, Pipeline, Recorder};
use crate::handles::ARENA_LIMIT;
use crate::render_graph::{
    BindSet, Binding, DescriptorSetHandle, FrameBufferHandle, FrameDesc, GraphDecl, Pass,
    RenderGraphBuilder, RenderTarget, PASS_LIMIT,
};
use crate::resources::{LayoutHandle, ResourceManager};
use crate::types::{
    DescriptorSetLayout, DescriptorType, Extent2D, Format, GraphicsPipeline, ImageUsage,
    LayoutBinding, PipelineLayout, PushConstantRange, ShaderStages,
};
use vstd::prelude::*;

verus! {

/// A copy of a list of push-constant ranges.
fn copy_ranges(ranges: &Vec<PushConstantRange>) -> (r: Vec<PushConstantRange>)
    ensures
        r@ == ranges@,
{
    let mut out: Vec<PushConstantRange> = Vec::new();
    let mut i: usize = 0;
    while i < ranges.len()
        invariant
            i <= ranges@.len(),
            out@ == ranges@.take(i as int),
        decreases ranges@.len() - i,
    {
        out.push(ranges[i]);
        i += 1;
        assert(out@ =~= ranges@.take(i as int));
    }
    assert(out@ =~= ranges@);
    out
}

/// The declaration of a colour target of the given extent that one pass
/// renders and later passes sample: 8-bit sRGB RGBA, used as colour
/// attachment and sampled.
pub open spec fn color_target(extent: Extent2D) -> FrameDesc {
    FrameDesc {
        width: extent.width,
        height: extent.height,
        format: Format { raw: 43 },
        usage: ImageUsage {
            transfer_src: false,
            transfer_dst: false,
            sampled: true,
            storage: false,
            color_attachment: true,
            depth_stencil_attachment: false,
            transient_attachment: false,
            input_attachment: false,
        },
    }
}

/// The declaration of a colour target of the given extent that one pass
/// renders and later passes sample.
pub fn color_target_desc(extent: Extent2D) -> (r: FrameDesc)
    ensures
        r == color_target(extent),
{
    FrameDesc {
        width: extent.width,
        height: extent.height,
        format: Format::r8g8b8a8_srgb(),
        usage: ImageUsage::color_target(),
    }
}

/// Whether `after` is `before` with one more pass at the end: a pass called
/// `name` that renders into `target` with `pipeline`, has the layout
/// `layout`, binds `sets` and declares the push-constant ranges `ranges`.
pub open spec fn adds_pass(
    before: GraphDecl,
    after: GraphDecl,
    name: Seq<char>,
    target: RenderTarget,
    pipeline: Pipeline,
    layout: LayoutHandle,
    sets: Seq<BindSet>,
    ranges: Seq<PushConstantRange>,
) -> bool {
    let pass = after.passes.last();
    &&& after.passes.len() == before.passes.len() + 1
    &&& after.passes.drop_last() == before.passes
    &&& pass.name@ == name
    &&& pass.target == target
    &&& pass.pipeline == pipeline
    &&& pass.layout == layout
    &&& pass.bind_sets@ == sets
    &&& pass.push_constants@ == ranges
}

/// A recorder that binds the pass and draws `vertex_count` vertices.
fn draw_recorder(vertex_count: u32) -> (r: Box<dyn Recorder>)
    ensures
        r == boxed_draw_recorder(vertex_count),
{
    let r: Box<dyn Recorder> = Box::new(DrawRecorder { vertex_count });
    return r;
}

/// The `DrawRecorder` of `vertex_count` vertices as a boxed recorder: what it
/// records is what `DrawRecorder::record` says.
pub open spec fn boxed_draw_recorder(vertex_count: u32) -> Box<dyn Recorder> {
    Box::new(DrawRecorder { vertex_count })
}

/// A pass that binds its pipeline and draws `vertex_count` vertices.
pub fn draw_pass(
    name: &str,
    target: RenderTarget,
    pipeline: GraphicsPipeline,
    layout: LayoutHandle,
    sets: Vec<BindSet>,
    ranges: Vec<PushConstantRange>,
    vertex_count: u32,
) -> (pass: Pass)
    ensures
        pass.name@ == name@,
        pass.target == target,
        pass.pipeline == Pipeline::Graphics(pipeline),
        pass.layout == layout,
        pass.bind_sets == sets,
        pass.push_constants == ranges,
{
    Pass {
        name: name.to_owned(),
        bind_sets: sets,
        target,
        pipeline: Pipeline::Graphics(pipeline),
        layout,
        push_constants: ranges,
        execute: draw_recorder(vertex_count),
    }
}

/// Builds a pass that binds its pipeline and draws `vertex_count` vertices,
/// and appends it to the graph.
fn add_draw_pass(
    builder: &mut RenderGraphBuilder,
    name: &str,
    target: RenderTarget,
    pipeline: GraphicsPipeline,
    layout: LayoutHandle,
    sets: Vec<BindSet>,
    ranges: Vec<PushConstantRange>,
    vertex_count: u32,
)
    requires
        old(builder).wf(),
        old(builder).decl().passes.len() < PASS_LIMIT,
    ensures
        final(builder).wf(),
        adds_pass(
            old(builder).decl(),
            final(builder).decl(),
            name@,
            target,
            Pipeline::Graphics(pipeline),
            layout,
            sets@,
            ranges@,
        ),
        final(builder).decl() == (GraphDecl {
            passes: final(builder).decl().passes,
            ..old(builder).decl()
        }),
{
    let pass = draw_pass(name, target, pipeline, layout, sets, ranges, vertex_count);
    builder.add_pass(pass);
    assert(builder.decl().passes.drop_last() =~= old(builder).decl().passes);
}

/// The pass that draws the scene's simple geometry.
#[derive(Clone, Copy, Debug, PartialEq, Eq, Structural)]
pub struct SimpleRenderer {
    pub frame_buffer: Option<FrameBufferHandle>,
    pub layout: LayoutHandle,
}

impl SimpleRenderer {
    /// Declares the simple pass: caches `layout` under the name
    /// `Layout 1` and appends a pass called `Simple Pass` that draws three
    /// vertices with `pipeline`. An offscreen pass renders into a transient
    /// of its own, declared at `resolution`; otherwise the pass renders into
    /// the swapchain.
    pub fn new(
        resolution: Extent2D,
        res: &mut ResourceManager,
        builder: &mut RenderGraphBuilder,
        offscreen: bool,
        layout: PipelineLayout,
        pipeline: GraphicsPipeline,
    ) -> (r: SimpleRenderer)
        requires
            old(res).wf(),
            old(res).has_room(),
            old(builder).wf(),
            old(builder).decl().passes.len() < PASS_LIMIT,
            old(builder).decl().transient_keys.len() < ARENA_LIMIT,
        ensures
            final(res).wf(),
            final(builder).wf(),
            !old(res).layouts().contains_key(r.layout.key),
            final(res).layouts() == old(res).layouts().insert(r.layout.key, layout),
            final(res).cached() == old(res).cached().insert("Layout 1"@, r.layout),
            r.frame_buffer is Some == offscreen,
            adds_pass(
                old(builder).decl(),
                final(builder).decl(),
                "Simple Pass"@,
                match r.frame_buffer {
                    Some(t) => RenderTarget::FrameBuffer(t),
                    None => RenderTarget::Swapchain,
                },
                Pipeline::Graphics(pipeline),
                r.layout,
                Seq::empty(),
                layout.push_constants@,
            ),
            final(builder).decl().binds == old(builder).decl().binds,
            final(builder).decl().set_keys == old(builder).decl().set_keys,
            final(builder).decl().set_layouts == old(builder).decl().set_layouts,
            match r.frame_buffer {
                Some(t) => !old(builder).decl().transient_keys.contains(t.key)
                    && final(builder).decl().transient_keys
                    == old(builder).decl().transient_keys.push(t.key)
                    && final(builder).decl().transients
                    == old(builder).decl().transients.push(color_target(resolution)),
                None => final(builder).decl().transient_keys == old(builder).decl().transient_keys
                    && final(builder).decl().transients == old(builder).decl().transients,
            },
    {
        let ranges = copy_ranges(&layout.push_constants);
        let handle = res.cache_layout("Layout 1", layout);
        if offscreen {
            let frame_buffer = builder.create_frame_buffer(color_target_desc(resolution));
            add_draw_pass(
                builder,
                "Simple Pass",
                RenderTarget::FrameBuffer(frame_buffer),
                pipeline,
                handle,
                Vec::new(),
                ranges,
                3,
            );
            return SimpleRenderer { frame_buffer: Some(frame_buffer), layout: handle };
        }
        add_draw_pass(
            builder,
            "Simple Pass",
            RenderTarget::Swapchain,
            pipeline,
            handle,
            Vec::new(),
            ranges,
            3,
        );
        SimpleRenderer { frame_buffer: None, layout: handle }
    }
}

/// The pass that draws the ground grid.
#[derive(Clone, Copy, Debug, PartialEq, Eq, Structural)]
pub struct GridRenderer {
    pub frame_buffer: Option<FrameBufferHandle>,
    pub layout: LayoutHandle,
}

impl GridRenderer {
    /// Declares the grid pass: a pass called `Grid Pass` that draws six
    /// vertices with `pipeline` and shares the layout cached under the name
    /// `Layout 1`. An offscreen pass renders into a transient of its own,
    /// declared at `resolution`; otherwise the pass renders into the
    /// swapchain. Without a layout of that name nothing is declared.
    pub fn new(
        resolution: Extent2D,
        res: &ResourceManager,
        builder: &mut RenderGraphBuilder,
        offscreen: bool,
        pipeline: GraphicsPipeline,
    ) -> (r: Option<GridRenderer>)
        requires
            res.wf(),
            old(builder).wf(),
            old(builder).decl().passes.len() < PASS_LIMIT,
            old(builder).decl().transient_keys.len() < ARENA_LIMIT,
        ensures
            final(builder).wf(),
            r is Some <==> res.cached().contains_key("Layout 1"@),
            r is None ==> final(builder).decl() == old(builder).decl(),
            r matches Some(grid) ==> {
                &&& grid.layout == res.cached()["Layout 1"@]
                &&& grid.frame_buffer is Some == offscreen
                &&& adds_pass(
                    old(builder).decl(),
                    final(builder).decl(),
                    "Grid Pass"@,
                    match grid.frame_buffer {
                        Some(t) => RenderTarget::FrameBuffer(t),
                        None => RenderTarget::Swapchain,
                    },
                    Pipeline::Graphics(pipeline),
                    grid.layout,
                    Seq::empty(),
                    res.layouts()[grid.layout.key].push_constants@,
                )
                &&& final(builder).decl().binds == old(builder).decl().binds
                &&& final(builder).decl().set_keys == old(builder).decl().set_keys
                &&& final(builder).decl().set_layouts == old(builder).decl().set_layouts
                &&& match grid.frame_buffer {
                    Some(t) => !old(builder).decl().transient_keys.contains(t.key)
                        && final(builder).decl().transient_keys
                        == old(builder).decl().transient_keys.push(t.key)
                        && final(builder).decl().transients
                        == old(builder).decl().transients.push(color_target(resolution)),
                    None => final(builder).decl().transient_keys
                        == old(builder).decl().transient_keys && final(builder).decl().transients
                        == old(builder).decl().transients,
                }
            },
    {
        let (ranges, handle) = match res.get_layout_from_cache("Layout 1") {
            Some((layout, handle)) => (copy_ranges(&layout.push_constants), handle),
            None => {
                return None;
            },
        };
        if offscreen {
            let frame_buffer = builder.create_frame_buffer(color_target_desc(resolution));
            add_draw_pass(
                builder,
                "Grid Pass",
                RenderTarget::FrameBuffer(frame_buffer),
                pipeline,
                handle,
                Vec::new(),
                ranges,
                6,
            );
            return Some(GridRenderer { frame_buffer: Some(frame_buffer), layout: handle });
        }
        add_draw_pass(
            builder,
            "Grid Pass",
            RenderTarget::Swapchain,
            pipeline,
            handle,
            Vec::new(),
            ranges,
            6,
        );
        Some(GridRenderer { frame_buffer: None, layout: handle })
    }
}

/// The pass that composes the offscreen targets into the swapchain image.
#[derive(Clone, Copy, Debug, PartialEq, Eq, Structural)]
pub struct FinalRenderer {}

/// Collects the transients that the final pass samples, each with the
/// binding it is read at.
pub struct FinalRendererBuilder {
    binds: Vec<(u32, FrameBufferHandle)>,
}

impl FinalRendererBuilder {
    /// The transients collected so far, each with its binding.
    pub closed spec fn inputs(&self) -> Seq<(u32, FrameBufferHandle)> {
        self.binds@
    }

    /// The bindings of the descriptor-set layout of the final pass: per
    /// input one combined image sampler at the input's binding, read by the
    /// fragment stage.
    pub open spec fn bindings(&self) -> Seq<LayoutBinding> {
        Seq::new(
            self.inputs().len(),
            |i: int|
                LayoutBinding {
                    binding: self.inputs()[i].0,
                    count: 1,
                    ty: DescriptorType::CombinedImageSampler,
                    stages: ShaderStages {
                        vertex: false,
                        fragment: true,
                        compute: false,
                    },
                },
        )
    }

    /// The edges of the final pass: per input, its binding of `set` samples
    /// its transient.
    pub open spec fn edges(&self, set: DescriptorSetHandle) -> Seq<Binding> {
        Seq::new(
            self.inputs().len(),
            |i: int| Binding { bind: self.inputs()[i].0, set, frame: self.inputs()[i].1 },
        )
    }

    /// A builder without inputs.
    pub fn new() -> (r: FinalRendererBuilder)
        ensures
            r.inputs().len() == 0,
    {
        FinalRendererBuilder { binds: Vec::new() }
    }

    /// Adds the transient `handle` as an input read at binding `bind`.
    pub fn with(self, bind: u32, handle: FrameBufferHandle) -> (r: FinalRendererBuilder)
        ensures
            r.inputs() == self.inputs().push((bind, handle)),
    {
        let mut binds = self.binds;
        binds.push((bind, handle));
        FinalRendererBuilder { binds }
    }

    /// The bindings to create the descriptor-set layout of the final pass
    /// from.
    pub fn layout_bindings(&self) -> (r: Vec<LayoutBinding>)
        ensures
            r@ == self.bindings(),
    {
        let mut out: Vec<LayoutBinding> = Vec::new();
        let mut i: usize = 0;
        while i < self.binds.len()
            invariant
                i <= self.binds@.len(),
                out@.len() == i,
                forall|k: int| 0 <= k < i ==> out@[k] == self.bindings()[k],
            decreases self.binds@.len() - i,
        {
            out.push(LayoutBinding::sampled_image(self.binds[i].0));
            i += 1;
        }
        assert(out@ =~= self.bindings());
        out
    }

    /// Declares the final pass: a descriptor set of the layout `set_layout`,
    /// per input an edge that binds the input's transient into that set,
    /// `layout` added to the resources, and a pass called `Final Pass` that
    /// binds the set at set index 0, renders into the swapchain and draws
    /// three vertices with `pipeline`.
    pub fn build(
        self,
        res: &mut ResourceManager,
        builder: &mut RenderGraphBuilder,
        set_layout: DescriptorSetLayout,
        layout: PipelineLayout,
        pipeline: GraphicsPipeline,
    ) -> (r: (FinalRenderer, DescriptorSetHandle, LayoutHandle))
        requires
            old(res).wf(),
            old(res).has_room(),
            old(builder).wf(),
            old(builder).decl().passes.len() < PASS_LIMIT,
            old(builder).decl().set_keys.len() < ARENA_LIMIT,
        ensures
            final(res).wf(),
            final(builder).wf(),
            !old(res).layouts().contains_key(r.2.key),
            final(res).layouts() == old(res).layouts().insert(r.2.key, layout),
            final(res).cached() == old(res).cached(),
            !old(builder).decl().set_keys.contains(r.1.key),
            final(builder).decl().set_keys == old(builder).decl().set_keys.push(r.1.key),
            final(builder).decl().set_layouts == old(builder).decl().set_layouts.push(set_layout),
            final(builder).decl().transient_keys == old(builder).decl().transient_keys,
            final(builder).decl().transients == old(builder).decl().transients,
            final(builder).decl().binds == old(builder).decl().binds + self.edges(r.1),
            adds_pass(
                old(builder).decl(),
                final(builder).decl(),
                "Final Pass"@,
                RenderTarget::Swapchain,
                Pipeline::Graphics(pipeline),
                r.2,
                seq![BindSet { set: 0, set_handle: r.1 }],
                layout.push_constants@,
            ),
    {
        let ranges = copy_ranges(&layout.push_constants);
        let set = builder.create_descriptor_set(set_layout);
        let ghost declared = builder.decl();
        let mut i: usize = 0;
        while i < self.binds.len()
            invariant
                builder.wf(),
                i <= self.binds@.len(),
                builder.decl() == (GraphDecl {
                    binds: declared.binds + self.edges(set).take(i as int),
                    ..declared
                }),
            decreases self.binds@.len() - i,
        {
            let (bind, frame) = self.binds[i];
            builder.bind_resource_to_set(bind, set, frame);
            i += 1;
            assert(declared.binds + self.edges(set).take(i as int) =~= (declared.binds
                + self.edges(set).take(i - 1)).push(Binding { bind, set, frame }));
        }
        assert(self.edges(set).take(self.binds@.len() as int) =~= self.edges(set));
        let handle = res.add_layout(layout);
        let mut sets: Vec<BindSet> = Vec::new();
        sets.push(BindSet { set: 0, set_handle: set });
        add_draw_pass(
            builder,
            "Final Pass",
            RenderTarget::Swapchain,
            pipeline,
            handle,
            sets,
            ranges,
            3,
        );
        (FinalRenderer {  }, set, handle)
    }
}

} // verus!

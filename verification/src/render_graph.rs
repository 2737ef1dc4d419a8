//! The render graph as it is declared: passes in the order in which they
//! run, transient colour targets, descriptor sets, and the edges that bind a
//! transient into a set.

use crate::command::{NoopRecorder, Pipeline, Recorder};
use crate::handles::{Arena, ARENA_LIMIT};
use crate::resources::{LayoutHandle, ResourceManager};
use crate::types::{
    DescriptorSetLayout, Extent2D, Format, FrameBuffer, Image, ImageUsage, ImageView,
    PipelineLayout, PushConstantRange, Sampler,
};
use vstd::prelude::*;

verus! {

/// Names a transient colour target of a graph.
#[derive(Clone, Copy, Debug, PartialEq, Eq, Structural, Hash)]
pub struct FrameBufferHandle {
    pub key: u64,
}

/// Names a descriptor set of a graph.
#[derive(Clone, Copy, Debug, PartialEq, Eq, Structural, Hash)]
pub struct DescriptorSetHandle {
    pub key: u64,
}

/// The declaration of a transient colour target.
#[derive(Clone, Copy, Debug, PartialEq, Eq, Structural)]
pub struct FrameDesc {
    pub width: u32,
    pub height: u32,
    pub format: Format,
    pub usage: ImageUsage,
}

/// The device objects of a transient colour target: its image, the colour
/// view of it, the sampler later passes read it with, and the framebuffer
/// that attaches the view together with the shared depth view.
#[derive(Clone, Copy, Debug, PartialEq, Eq, Structural)]
pub struct GraphFrameBuffer {
    pub frame: FrameBuffer,
    pub image_view: ImageView,
    pub sampler: Sampler,
    pub image: Image,
}

/// What a pass renders into.
#[derive(Clone, Copy, Debug, PartialEq, Eq, Structural)]
pub enum RenderTarget {
    Swapchain,
    FrameBuffer(FrameBufferHandle),
}

/// A descriptor set bound by a pass at a set index.
#[derive(Clone, Copy, Debug, PartialEq, Eq, Structural)]
pub struct BindSet {
    pub set: u32,
    pub set_handle: DescriptorSetHandle,
}

/// An edge of the graph: binding `bind` of set `set` samples transient
/// `frame`.
#[derive(Clone, Copy, Debug, PartialEq, Eq, Structural)]
pub struct Binding {
    pub bind: u32,
    pub set: DescriptorSetHandle,
    pub frame: FrameBufferHandle,
}

/// A field a pass cannot do without.
#[derive(Clone, Copy, Debug, PartialEq, Eq, Structural)]
pub enum PassField {
    Pipeline,
    Recorder,
}

/// Why a graph could not be built.
#[derive(Clone, Copy, Debug, PartialEq, Eq, Structural)]
pub enum CompileError {
    /// A pass was built without a required field.
    MissingField(PassField),
    /// An edge names a transient or a set the graph does not have, a binding
    /// its set does not declare, or a transient that no pass renders into.
    /// The payload is the transient of the first such edge.
    DanglingBind(FrameBufferHandle),
    /// A pass renders into a handle that is no transient of the graph.
    UnknownTarget(FrameBufferHandle),
    /// Two passes render into the same transient.
    DuplicateProducer(FrameBufferHandle),
    /// A pass samples a transient that is not rendered by an earlier pass.
    ProducerAfterConsumer(FrameBufferHandle),
    /// The pipeline layout of a pass, by the index of the pass, does not
    /// match its pipeline, its bound sets and its push-constant ranges.
    LayoutMismatch(usize),
    /// The device has no queue that takes graphics work.
    NoGraphicsQueue,
    /// The device objects of a transient could not be allocated.
    TransientAllocation(FrameBufferHandle),
}

/// One pass of a graph: where it renders, what it draws with, the sets it
/// binds and the recorder that emits its draw commands.
pub struct Pass {
    pub name: String,
    pub bind_sets: Vec<BindSet>,
    pub target: RenderTarget,
    pub pipeline: Pipeline,
    pub layout: LayoutHandle,
    pub push_constants: Vec<PushConstantRange>,
    pub execute: Box<dyn Recorder>,
}

/// Collects the fields of a pass. Until a recorder is set, `execute` holds
/// one that emits nothing and `has_recorder` is false.
pub struct PassBuilder {
    pub name: String,
    pub target: RenderTarget,
    pub execute: Box<dyn Recorder>,
    pub has_recorder: bool,
    pub pipeline: Option<Pipeline>,
    pub bind_sets: Vec<BindSet>,
    pub pipeline_layout: Option<LayoutHandle>,
    pub push_constants: Vec<PushConstantRange>,
}

impl PassBuilder {
    /// A pass called `name` that renders into the swapchain, with no
    /// pipeline, recorder, sets or push constants yet.
    pub fn new(name: &str) -> (r: PassBuilder)
        ensures
            r.name@ == name@,
            r.target == RenderTarget::Swapchain,
            !r.has_recorder,
            r.pipeline is None,
            r.pipeline_layout is None,
            r.bind_sets@.len() == 0,
            r.push_constants@.len() == 0,
    {
        PassBuilder {
            bind_sets: Vec::new(),
            name: name.to_owned(),
            target: RenderTarget::Swapchain,
            execute: Box::new(NoopRecorder {}),
            has_recorder: false,
            pipeline: None,
            pipeline_layout: None,
            push_constants: Vec::new(),
        }
    }

    /// Binds the set `set_handle` at set index `set`.
    pub fn bind_descriptor_set(self, set: u32, set_handle: DescriptorSetHandle) -> (r: PassBuilder)
        ensures
            r.bind_sets@ == self.bind_sets@.push(BindSet { set, set_handle }),
            r.name == self.name,
            r.target == self.target,
            r.execute === self.execute,
            r.has_recorder == self.has_recorder,
            r.pipeline == self.pipeline,
            r.pipeline_layout == self.pipeline_layout,
            r.push_constants == self.push_constants,
    {
        let mut bind_sets = self.bind_sets;
        bind_sets.push(BindSet { set, set_handle });
        PassBuilder {
            name: self.name,
            target: self.target,
            execute: self.execute,
            has_recorder: self.has_recorder,
            pipeline: self.pipeline,
            bind_sets: bind_sets,
            pipeline_layout: self.pipeline_layout,
            push_constants: self.push_constants,
        }
    }

    /// Sets what the pass renders into.
    pub fn target(self, target: RenderTarget) -> (r: PassBuilder)
        ensures
            r.target == target,
            r.name == self.name,
            r.bind_sets == self.bind_sets,
            r.execute === self.execute,
            r.has_recorder == self.has_recorder,
            r.pipeline == self.pipeline,
            r.pipeline_layout == self.pipeline_layout,
            r.push_constants == self.push_constants,
    {
        PassBuilder {
            name: self.name,
            target: target,
            execute: self.execute,
            has_recorder: self.has_recorder,
            pipeline: self.pipeline,
            bind_sets: self.bind_sets,
            pipeline_layout: self.pipeline_layout,
            push_constants: self.push_constants,
        }
    }

    /// Sets the recorder of the pass.
    pub fn execute(self, execute: Box<dyn Recorder>) -> (r: PassBuilder)
        ensures
            r.execute === execute,
            r.has_recorder,
            r.name == self.name,
            r.bind_sets == self.bind_sets,
            r.target == self.target,
            r.pipeline == self.pipeline,
            r.pipeline_layout == self.pipeline_layout,
            r.push_constants == self.push_constants,
    {
        PassBuilder {
            name: self.name,
            target: self.target,
            execute: execute,
            has_recorder: true,
            pipeline: self.pipeline,
            bind_sets: self.bind_sets,
            pipeline_layout: self.pipeline_layout,
            push_constants: self.push_constants,
        }
    }

    /// Sets the pipeline of the pass and the handle of its layout.
    pub fn use_pipeline(self, pipeline: Pipeline, layout: LayoutHandle) -> (r: PassBuilder)
        ensures
            r.pipeline == Some(pipeline),
            r.pipeline_layout == Some(layout),
            r.name == self.name,
            r.bind_sets == self.bind_sets,
            r.target == self.target,
            r.execute === self.execute,
            r.has_recorder == self.has_recorder,
            r.push_constants == self.push_constants,
    {
        PassBuilder {
            name: self.name,
            target: self.target,
            execute: self.execute,
            has_recorder: self.has_recorder,
            pipeline: Some(pipeline),
            bind_sets: self.bind_sets,
            pipeline_layout: Some(layout),
            push_constants: self.push_constants,
        }
    }

    /// Declares a push-constant range of the pass.
    pub fn push_constant(self, range: PushConstantRange) -> (r: PassBuilder)
        ensures
            r.push_constants@ == self.push_constants@.push(range),
            r.name == self.name,
            r.bind_sets == self.bind_sets,
            r.target == self.target,
            r.execute === self.execute,
            r.has_recorder == self.has_recorder,
            r.pipeline == self.pipeline,
            r.pipeline_layout == self.pipeline_layout,
    {
        let mut push_constants = self.push_constants;
        push_constants.push(range);
        PassBuilder {
            name: self.name,
            target: self.target,
            execute: self.execute,
            has_recorder: self.has_recorder,
            pipeline: self.pipeline,
            bind_sets: self.bind_sets,
            pipeline_layout: self.pipeline_layout,
            push_constants: push_constants,
        }
    }

    /// The pass, if it has a pipeline with its layout and a recorder.
    pub fn build(self) -> (r: Result<Pass, CompileError>)
        ensures
            match r {
                Ok(pass) => self.pipeline == Some(pass.pipeline) && self.pipeline_layout == Some(
                    pass.layout,
                ) && self.has_recorder && pass.execute === self.execute && pass.name == self.name
                    && pass.bind_sets == self.bind_sets && pass.target == self.target
                    && pass.push_constants == self.push_constants,
                Err(e) => if self.pipeline is None || self.pipeline_layout is None {
                    e == CompileError::MissingField(PassField::Pipeline)
                } else {
                    !self.has_recorder && e == CompileError::MissingField(PassField::Recorder)
                },
            },
    {
        let pipeline = match self.pipeline {
            Some(pipeline) => pipeline,
            None => {
                return Err(CompileError::MissingField(PassField::Pipeline));
            },
        };
        let layout = match self.pipeline_layout {
            Some(layout) => layout,
            None => {
                return Err(CompileError::MissingField(PassField::Pipeline));
            },
        };
        if !self.has_recorder {
            return Err(CompileError::MissingField(PassField::Recorder));
        }
        Ok(
            Pass {
                target: self.target,
                name: self.name,
                bind_sets: self.bind_sets,
                pipeline,
                layout,
                push_constants: self.push_constants,
                execute: self.execute,
            },
        )
    }
}

/// The number of passes a graph accepts: the passes of a frame slot get one
/// command buffer each, and their number is a 32-bit count.
pub const PASS_LIMIT: usize = 0xFFFF_FFFF;

/// What a graph declares, as plain sequences: the transients and the sets
/// with their keys, the edges, and the passes in the order in which they run.
pub struct GraphDecl {
    pub transient_keys: Seq<u64>,
    pub transients: Seq<FrameDesc>,
    pub set_keys: Seq<u64>,
    pub set_layouts: Seq<DescriptorSetLayout>,
    pub binds: Seq<Binding>,
    pub passes: Seq<Pass>,
}

impl GraphDecl {
    /// Pass `j` renders into transient `t`.
    pub open spec fn produces(self, j: int, t: FrameBufferHandle) -> bool {
        0 <= j < self.passes.len() && self.passes[j].target == RenderTarget::FrameBuffer(t)
    }

    /// Some pass renders into transient `t`.
    pub open spec fn has_producer(self, t: FrameBufferHandle) -> bool {
        exists|j: int| self.produces(j, t)
    }

    /// Pass `c` binds set `s`.
    pub open spec fn consumes(self, c: int, s: DescriptorSetHandle) -> bool {
        0 <= c < self.passes.len() && exists|k: int|
            0 <= k < self.passes[c].bind_sets@.len() && (
            #[trigger] self.passes[c].bind_sets@[k]).set_handle == s
    }

    /// Pass `c` samples transient `t`: it binds a set into which an edge
    /// binds `t`.
    pub open spec fn samples(self, c: int, t: FrameBufferHandle) -> bool {
        exists|i: int|
            0 <= i < self.binds.len() && (#[trigger] self.binds[i]).frame == t && self.consumes(
                c,
                self.binds[i].set,
            )
    }

    /// The layout of the set `s`, which the graph has.
    pub open spec fn layout_of(self, s: DescriptorSetHandle) -> DescriptorSetLayout {
        self.set_layouts[self.set_keys.index_of(s.key)]
    }

    /// Edge `i` dangles: its transient or its set is not of this graph, its
    /// set does not declare its binding, or no pass renders its transient.
    pub open spec fn bind_dangling(self, i: int) -> bool {
        let edge = self.binds[i];
        !(self.transient_keys.contains(edge.frame.key) && self.set_keys.contains(edge.set.key)
            && self.layout_of(edge.set).declares(edge.bind) && self.has_producer(edge.frame))
    }

    /// Pass `j` renders into a handle that is no transient of this graph.
    pub open spec fn target_unknown(self, j: int) -> bool {
        self.passes[j].target matches RenderTarget::FrameBuffer(t) && !self.transient_keys.contains(
            t.key,
        )
    }

    /// Pass `j` renders into a transient that an earlier pass renders into.
    pub open spec fn target_duplicate(self, j: int) -> bool {
        self.passes[j].target matches RenderTarget::FrameBuffer(t) && exists|k: int|
            0 <= k < j && self.produces(k, t)
    }

    /// The transient of edge `i` is sampled by a pass that does not come
    /// after a pass that renders it.
    pub open spec fn bind_misordered(self, i: int) -> bool {
        exists|p: int, c: int|
            #![trigger self.produces(p, self.binds[i].frame), self.consumes(c, self.binds[i].set)]
            self.produces(p, self.binds[i].frame) && self.consumes(c, self.binds[i].set) && c
                <= p
    }

    /// The pipeline layout of pass `j` matches the pass: the layout is held
    /// under the pass's handle and is the one its pipeline was created with;
    /// the pass binds as many sets as the layout has set indices, each a set
    /// of this graph, at a set index of its own, with the descriptor-set
    /// layout the pipeline layout has there; and the push-constant ranges
    /// are those the pass declares.
    pub open spec fn pass_layout_ok(self, j: int, layouts: Map<u64, PipelineLayout>) -> bool {
        let pass = self.passes[j];
        let layout = layouts[pass.layout.key];
        &&& layouts.contains_key(pass.layout.key)
        &&& pass.pipeline.spec_layout() == layout.raw
        &&& pass.bind_sets@.len() == layout.set_layouts@.len()
        &&& pass.bind_sets@.len() <= u32::MAX
        &&& pass.push_constants@ == layout.push_constants@
        &&& forall|k: int|
            0 <= k < pass.bind_sets@.len() ==> {
                let bound = #[trigger] pass.bind_sets@[k];
                &&& bound.set < pass.bind_sets@.len()
                &&& self.set_keys.contains(bound.set_handle.key)
                &&& layout.set_layouts@[bound.set as int] == self.layout_of(bound.set_handle).raw
            }
        &&& forall|k: int, m: int|
            0 <= k < m < pass.bind_sets@.len() ==> (#[trigger] pass.bind_sets@[k]).set != (
            #[trigger] pass.bind_sets@[m]).set
    }

    /// Well-formedness: one key per transient and per set, no key twice,
    /// and no more passes than a command buffer count can express.
    pub open spec fn wf(self) -> bool {
        &&& self.transient_keys.len() == self.transients.len()
        &&& self.transient_keys.no_duplicates()
        &&& self.set_keys.len() == self.set_layouts.len()
        &&& self.set_keys.no_duplicates()
        &&& self.passes.len() <= PASS_LIMIT
    }

    /// The declaration with every transient at the given extent.
    pub open spec fn at_extent(self, extent: Extent2D) -> GraphDecl {
        GraphDecl {
            transients: Seq::new(
                self.transients.len(),
                |i: int|
                    FrameDesc { width: extent.width, height: extent.height, ..self.transients[i] },
            ),
            ..self
        }
    }

    /// Whether every transient has the given extent.
    pub open spec fn all_at_extent(self, extent: Extent2D) -> bool {
        forall|i: int|
            0 <= i < self.transients.len() ==> (#[trigger] self.transients[i]).width
                == extent.width && self.transients[i].height == extent.height
    }

    /// No edge dangles.
    pub open spec fn binds_resolve(self) -> bool {
        forall|i: int| 0 <= i < self.binds.len() ==> !self.bind_dangling(i)
    }

    /// Every pass renders into the swapchain or into a transient of this
    /// graph.
    pub open spec fn targets_known(self) -> bool {
        forall|j: int| 0 <= j < self.passes.len() ==> !self.target_unknown(j)
    }

    /// No two passes render into the same transient.
    pub open spec fn targets_unique(self) -> bool {
        forall|j: int| 0 <= j < self.passes.len() ==> !self.target_duplicate(j)
    }

    /// Every transient that is sampled is rendered by an earlier pass.
    pub open spec fn producers_first(self) -> bool {
        forall|i: int| 0 <= i < self.binds.len() ==> !self.bind_misordered(i)
    }

    /// Every pass has a matching pipeline layout.
    pub open spec fn layouts_match(self, layouts: Map<u64, PipelineLayout>) -> bool {
        forall|j: int| 0 <= j < self.passes.len() ==> self.pass_layout_ok(j, layouts)
    }

    /// The graph can be compiled.
    pub open spec fn valid(self, layouts: Map<u64, PipelineLayout>) -> bool {
        &&& self.binds_resolve()
        &&& self.targets_known()
        &&& self.targets_unique()
        &&& self.producers_first()
        &&& self.layouts_match(layouts)
    }

    /// Whether `error` is what is wrong with the graph. The rules are taken
    /// in the order of `valid`, and within a rule the first edge or pass that
    /// breaks it is reported, so at most one error explains a graph.
    pub open spec fn explains(self, layouts: Map<u64, PipelineLayout>, error: CompileError) -> bool {
        match error {
            CompileError::DanglingBind(t) => exists|i: int|
                0 <= i < self.binds.len() && #[trigger] self.bind_dangling(i) && t
                    == self.binds[i].frame && forall|k: int| 0 <= k < i ==> !self.bind_dangling(k),
            CompileError::UnknownTarget(t) => self.binds_resolve() && exists|j: int|
                0 <= j < self.passes.len() && #[trigger] self.target_unknown(j)
                    && self.passes[j].target == RenderTarget::FrameBuffer(t) && forall|k: int|
                    0 <= k < j ==> !self.target_unknown(k),
            CompileError::DuplicateProducer(t) => self.binds_resolve() && self.targets_known()
                && exists|j: int|
                0 <= j < self.passes.len() && #[trigger] self.target_duplicate(j)
                    && self.passes[j].target == RenderTarget::FrameBuffer(t) && forall|k: int|
                    0 <= k < j ==> !self.target_duplicate(k),
            CompileError::ProducerAfterConsumer(t) => self.binds_resolve() && self.targets_known()
                && self.targets_unique() && exists|i: int|
                0 <= i < self.binds.len() && #[trigger] self.bind_misordered(i) && t
                    == self.binds[i].frame && forall|k: int|
                    0 <= k < i ==> !self.bind_misordered(k),
            CompileError::LayoutMismatch(j) => self.binds_resolve() && self.targets_known()
                && self.targets_unique() && self.producers_first() && 0 <= j < self.passes.len()
                && !self.pass_layout_ok(j as int, layouts) && forall|k: int|
                0 <= k < j ==> self.pass_layout_ok(k, layouts),
            _ => false,
        }
    }
}

/// Declaring the transients anew at an extent forgets the extent they had:
/// only the last extent counts.
pub proof fn lemma_last_extent_counts(decl: GraphDecl, first: Extent2D, second: Extent2D)
    ensures
        decl.at_extent(first).at_extent(second) == decl.at_extent(second),
        decl.at_extent(second).all_at_extent(second),
{
    assert(decl.at_extent(first).at_extent(second).transients =~= decl.at_extent(
        second,
    ).transients);
}

/// Declaring the transients anew at the extent they all have changes
/// nothing.
pub proof fn lemma_same_extent_changes_nothing(decl: GraphDecl, extent: Extent2D)
    requires
        decl.all_at_extent(extent),
    ensures
        decl.at_extent(extent) == decl,
{
    assert(decl.at_extent(extent).transients =~= decl.transients);
}

/// The extent of the transients plays no part in whether a graph is valid.
pub proof fn lemma_extent_keeps_validity(
    decl: GraphDecl,
    extent: Extent2D,
    layouts: Map<u64, PipelineLayout>,
)
    ensures
        decl.at_extent(extent).wf() == decl.wf(),
        decl.at_extent(extent).binds_resolve() == decl.binds_resolve(),
        decl.at_extent(extent).targets_known() == decl.targets_known(),
        decl.at_extent(extent).targets_unique() == decl.targets_unique(),
        decl.at_extent(extent).producers_first() == decl.producers_first(),
        decl.at_extent(extent).layouts_match(layouts) == decl.layouts_match(layouts),
{
    let e = decl.at_extent(extent);
    assert forall|i: int| e.bind_dangling(i) == decl.bind_dangling(i) by {
        assert(e.has_producer(e.binds[i].frame) == decl.has_producer(decl.binds[i].frame)) by {
            assert forall|j: int| e.produces(j, e.binds[i].frame) == decl.produces(
                j,
                decl.binds[i].frame,
            ) by {}
        }
    }
    assert forall|j: int| e.target_unknown(j) == decl.target_unknown(j) by {}
    assert forall|j: int| e.target_duplicate(j) == decl.target_duplicate(j) by {
        assert forall|k: int, t: FrameBufferHandle| e.produces(k, t) == decl.produces(k, t) by {}
    }
    assert forall|i: int| e.bind_misordered(i) == decl.bind_misordered(i) by {
        assert forall|p: int| e.produces(p, e.binds[i].frame) == decl.produces(p, decl.binds[i].frame) by {}
        assert forall|c: int| e.consumes(c, e.binds[i].set) == decl.consumes(c, decl.binds[i].set) by {}
    }
    assert forall|j: int| e.pass_layout_ok(j, layouts) == decl.pass_layout_ok(j, layouts) by {}
}

/// An edge whose transient no pass renders makes the graph invalid, and the
/// only error that explains the graph is a dangling bind. Where the edge is
/// the first that dangles, the error names its transient.
pub proof fn lemma_unproduced_bind_is_dangling(
    decl: GraphDecl,
    layouts: Map<u64, PipelineLayout>,
    i: int,
)
    requires
        0 <= i < decl.binds.len(),
        !decl.has_producer(decl.binds[i].frame),
    ensures
        decl.bind_dangling(i),
        !decl.valid(layouts),
        forall|error: CompileError| #[trigger]
            decl.explains(layouts, error) ==> error is DanglingBind,
        (forall|k: int| 0 <= k < i ==> !decl.bind_dangling(k)) ==> forall|error: CompileError|
         #[trigger]
            decl.explains(layouts, error) ==> error == CompileError::DanglingBind(
                decl.binds[i].frame,
            ),
{
    assert(decl.bind_dangling(i));
    assert forall|error: CompileError| #[trigger] decl.explains(layouts, error) implies error
        is DanglingBind by {
        if !(error is DanglingBind) {
            assert(!decl.binds_resolve());
        }
    }
    if forall|k: int| 0 <= k < i ==> !decl.bind_dangling(k) {
        assert forall|error: CompileError| #[trigger] decl.explains(layouts, error) implies error
            == CompileError::DanglingBind(decl.binds[i].frame) by {
            let t = error->DanglingBind_0;
            let first = choose|first: int|
                0 <= first < decl.binds.len() && #[trigger] decl.bind_dangling(first) && t
                    == decl.binds[first].frame && forall|k: int|
                    0 <= k < first ==> !decl.bind_dangling(k);
            assert(first == i);
        }
    }
}

/// At most one error explains a graph, and none explains a valid one.
pub proof fn lemma_one_explanation(
    decl: GraphDecl,
    layouts: Map<u64, PipelineLayout>,
    one: CompileError,
    other: CompileError,
)
    requires
        decl.explains(layouts, one),
        decl.explains(layouts, other),
    ensures
        one == other,
        !decl.valid(layouts),
{
    match one {
        CompileError::DanglingBind(t) => {
            let i = choose|i: int|
                0 <= i < decl.binds.len() && #[trigger] decl.bind_dangling(i) && t
                    == decl.binds[i].frame && forall|k: int| 0 <= k < i ==> !decl.bind_dangling(k);
            if let CompileError::DanglingBind(u) = other {
                let j = choose|j: int|
                    0 <= j < decl.binds.len() && #[trigger] decl.bind_dangling(j) && u
                        == decl.binds[j].frame && forall|k: int|
                        0 <= k < j ==> !decl.bind_dangling(k);
                assert(i == j);
            }
        },
        CompileError::UnknownTarget(t) => {
            let i = choose|i: int|
                0 <= i < decl.passes.len() && #[trigger] decl.target_unknown(i)
                    && decl.passes[i].target == RenderTarget::FrameBuffer(t) && forall|k: int|
                    0 <= k < i ==> !decl.target_unknown(k);
            if let CompileError::UnknownTarget(u) = other {
                let j = choose|j: int|
                    0 <= j < decl.passes.len() && #[trigger] decl.target_unknown(j)
                        && decl.passes[j].target == RenderTarget::FrameBuffer(u) && forall|k: int|
                        0 <= k < j ==> !decl.target_unknown(k);
                assert(i == j);
            }
        },
        CompileError::DuplicateProducer(t) => {
            let i = choose|i: int|
                0 <= i < decl.passes.len() && #[trigger] decl.target_duplicate(i)
                    && decl.passes[i].target == RenderTarget::FrameBuffer(t) && forall|k: int|
                    0 <= k < i ==> !decl.target_duplicate(k);
            if let CompileError::DuplicateProducer(u) = other {
                let j = choose|j: int|
                    0 <= j < decl.passes.len() && #[trigger] decl.target_duplicate(j)
                        && decl.passes[j].target == RenderTarget::FrameBuffer(u) && forall|k: int|
                        0 <= k < j ==> !decl.target_duplicate(k);
                assert(i == j);
            }
        },
        CompileError::ProducerAfterConsumer(t) => {
            let i = choose|i: int|
                0 <= i < decl.binds.len() && #[trigger] decl.bind_misordered(i) && t
                    == decl.binds[i].frame && forall|k: int|
                    0 <= k < i ==> !decl.bind_misordered(k);
            if let CompileError::ProducerAfterConsumer(u) = other {
                let j = choose|j: int|
                    0 <= j < decl.binds.len() && #[trigger] decl.bind_misordered(j) && u
                        == decl.binds[j].frame && forall|k: int|
                        0 <= k < j ==> !decl.bind_misordered(k);
                assert(i == j);
            }
        },
        CompileError::LayoutMismatch(a) => {
            if let CompileError::LayoutMismatch(b) = other {
                assert(a == b);
            }
        },
        _ => {},
    }
}

/// Whether two lists of push-constant ranges are the same.
fn same_ranges(a: &Vec<PushConstantRange>, b: &Vec<PushConstantRange>) -> (r: bool)
    ensures
        r == (a@ == b@),
{
    if a.len() != b.len() {
        return false;
    }
    let mut i: usize = 0;
    while i < a.len()
        invariant
            i <= a@.len(),
            a@.len() == b@.len(),
            forall|k: int| 0 <= k < i ==> a@[k] == b@[k],
        decreases a@.len() - i,
    {
        if a[i] != b[i] {
            return false;
        }
        i += 1;
    }
    assert(a@ =~= b@);
    true
}

/// Whether no two of the bound sets have the same set index.
fn distinct_indices(sets: &Vec<BindSet>) -> (r: bool)
    ensures
        r == (forall|k: int, m: int|
            0 <= k < m < sets@.len() ==> (#[trigger] sets@[k]).set != (#[trigger] sets@[m]).set),
{
    let n = sets.len();
    let mut a: usize = 0;
    while a < n
        invariant
            n == sets@.len(),
            a <= n,
            forall|x: int, y: int|
                0 <= x < y < n && x < a ==> (#[trigger] sets@[x]).set != (#[trigger] sets@[y]).set,
        decreases n - a,
    {
        let mut b: usize = a + 1;
        while b < n
            invariant
                n == sets@.len(),
                a < b <= n,
                forall|y: int| a < y < b ==> sets@[a as int].set != (#[trigger] sets@[y]).set,
            decreases n - b,
        {
            if sets[a].set == sets[b].set {
                assert(sets@[a as int].set == sets@[b as int].set);
                return false;
            }
            b += 1;
        }
        a += 1;
    }
    true
}

/// Accumulates the declaration of a graph.
pub struct RenderGraphBuilder {
    frame_buffer: Arena<FrameDesc>,
    set_layout: Arena<DescriptorSetLayout>,
    binds: Vec<Binding>,
    passes: Vec<Pass>,
}

impl RenderGraphBuilder {
    /// What has been declared so far.
    pub closed spec fn decl(&self) -> GraphDecl {
        GraphDecl {
            transient_keys: self.frame_buffer.keys(),
            transients: self.frame_buffer.items(),
            set_keys: self.set_layout.keys(),
            set_layouts: self.set_layout.items(),
            binds: self.binds@,
            passes: self.passes@,
        }
    }

    /// The arenas underneath are well-formed.
    pub closed spec fn arenas_wf(&self) -> bool {
        self.frame_buffer.wf() && self.set_layout.wf()
    }

    /// Well-formedness of the builder and of what it declares.
    pub open spec fn wf(&self) -> bool {
        self.arenas_wf() && self.decl().wf()
    }

    /// A builder that declares nothing.
    pub fn new() -> (r: RenderGraphBuilder)
        ensures
            r.wf(),
            r.decl().transient_keys.len() == 0,
            r.decl().set_keys.len() == 0,
            r.decl().binds.len() == 0,
            r.decl().passes.len() == 0,
    {
        RenderGraphBuilder {
            passes: Vec::new(),
            binds: Vec::new(),
            set_layout: Arena::new(),
            frame_buffer: Arena::new(),
        }
    }

    /// The number of passes.
    pub fn pass_count(&self) -> (n: usize)
        ensures
            n == self.decl().passes.len(),
    {
        self.passes.len()
    }

    /// The number of transients.
    pub fn transient_count(&self) -> (n: usize)
        requires
            self.wf(),
        ensures
            n == self.decl().transient_keys.len(),
    {
        self.frame_buffer.len()
    }

    /// The number of descriptor sets.
    pub fn set_count(&self) -> (n: usize)
        requires
            self.wf(),
        ensures
            n == self.decl().set_keys.len(),
    {
        self.set_layout.len()
    }

    /// The declaration of the `i`-th transient.
    pub fn transient_desc(&self, i: usize) -> (r: FrameDesc)
        requires
            self.wf(),
            i < self.decl().transients.len(),
        ensures
            r == self.decl().transients[i as int],
    {
        *self.frame_buffer.item_at(i)
    }

    /// The layout of the `i`-th descriptor set.
    pub fn set_layout(&self, i: usize) -> (r: &DescriptorSetLayout)
        requires
            self.wf(),
            i < self.decl().set_layouts.len(),
        ensures
            *r == self.decl().set_layouts[i as int],
    {
        self.set_layout.item_at(i)
    }

    /// The `j`-th pass.
    pub fn pass(&self, j: usize) -> (r: &Pass)
        requires
            j < self.decl().passes.len(),
        ensures
            *r == self.decl().passes[j as int],
    {
        &self.passes[j]
    }

    /// The number of edges.
    pub fn bind_count(&self) -> (n: usize)
        ensures
            n == self.decl().binds.len(),
    {
        self.binds.len()
    }

    /// The `i`-th edge.
    pub fn bind(&self, i: usize) -> (r: Binding)
        requires
            i < self.decl().binds.len(),
        ensures
            r == self.decl().binds[i as int],
    {
        self.binds[i]
    }

    /// The handle of the `i`-th transient.
    pub fn transient_handle(&self, i: usize) -> (r: FrameBufferHandle)
        requires
            self.wf(),
            i < self.decl().transient_keys.len(),
        ensures
            r.key == self.decl().transient_keys[i as int],
    {
        FrameBufferHandle { key: self.frame_buffer.key_at(i) }
    }

    /// The handle of the `i`-th descriptor set.
    pub fn set_handle(&self, i: usize) -> (r: DescriptorSetHandle)
        requires
            self.wf(),
            i < self.decl().set_keys.len(),
        ensures
            r.key == self.decl().set_keys[i as int],
    {
        DescriptorSetHandle { key: self.set_layout.key_at(i) }
    }

    /// The position of a transient among the transients, if the handle names
    /// one.
    pub fn transient_position(&self, handle: FrameBufferHandle) -> (r: Option<usize>)
        requires
            self.wf(),
        ensures
            match r {
                Some(i) => i < self.decl().transient_keys.len() && self.decl().transient_keys[i as int]
                    == handle.key && self.decl().transient_keys.index_of(handle.key) == i,
                None => !self.decl().transient_keys.contains(handle.key),
            },
    {
        let r = self.frame_buffer.position(handle.key);
        proof {
            if let Some(i) = r {
                self.frame_buffer.lemma_position_unique(i as int);
            }
        }
        r
    }

    /// The position of a descriptor set among the sets, if the handle names
    /// one.
    pub fn set_position(&self, handle: DescriptorSetHandle) -> (r: Option<usize>)
        requires
            self.wf(),
        ensures
            match r {
                Some(i) => i < self.decl().set_keys.len() && self.decl().set_keys[i as int]
                    == handle.key && self.decl().set_keys.index_of(handle.key) == i,
                None => !self.decl().set_keys.contains(handle.key),
            },
    {
        let r = self.set_layout.position(handle.key);
        proof {
            if let Some(i) = r {
                self.set_layout.lemma_position_unique(i as int);
            }
        }
        r
    }

    /// Appends a pass; passes run in the order in which they were added.
    pub fn add_pass(&mut self, pass: Pass)
        requires
            old(self).wf(),
            old(self).decl().passes.len() < PASS_LIMIT,
        ensures
            final(self).wf(),
            final(self).decl() == (GraphDecl {
                passes: old(self).decl().passes.push(pass),
                ..old(self).decl()
            }),
    {
        self.passes.push(pass);
    }

    /// Declares a transient colour target and returns its handle.
    pub fn create_frame_buffer(&mut self, desc: FrameDesc) -> (handle: FrameBufferHandle)
        requires
            old(self).wf(),
            old(self).decl().transient_keys.len() < ARENA_LIMIT,
        ensures
            final(self).wf(),
            !old(self).decl().transient_keys.contains(handle.key),
            final(self).decl() == (GraphDecl {
                transient_keys: old(self).decl().transient_keys.push(handle.key),
                transients: old(self).decl().transients.push(desc),
                ..old(self).decl()
            }),
    {
        let key = self.frame_buffer.insert(desc);
        FrameBufferHandle { key }
    }

    /// Declares a descriptor set of the given layout and returns its handle.
    pub fn create_descriptor_set(&mut self, set_layout: DescriptorSetLayout) -> (handle:
        DescriptorSetHandle)
        requires
            old(self).wf(),
            old(self).decl().set_keys.len() < ARENA_LIMIT,
        ensures
            final(self).wf(),
            !old(self).decl().set_keys.contains(handle.key),
            final(self).decl() == (GraphDecl {
                set_keys: old(self).decl().set_keys.push(handle.key),
                set_layouts: old(self).decl().set_layouts.push(set_layout),
                ..old(self).decl()
            }),
    {
        let key = self.set_layout.insert(set_layout);
        DescriptorSetHandle { key }
    }

    /// Declares an edge: binding `bind` of set `set` samples transient
    /// `frame`. The handles are checked when the graph is compiled.
    pub fn bind_resource_to_set(
        &mut self,
        bind: u32,
        set: DescriptorSetHandle,
        frame: FrameBufferHandle,
    )
        requires
            old(self).wf(),
        ensures
            final(self).wf(),
            final(self).decl() == (GraphDecl {
                binds: old(self).decl().binds.push(Binding { bind, set, frame }),
                ..old(self).decl()
            }),
    {
        self.binds.push(Binding { bind, set, frame });
    }

    /// Declares every transient anew at the given extent. Handles, formats
    /// and usages stay as they are.
    pub fn set_transient_extent(&mut self, extent: Extent2D)
        requires
            old(self).wf(),
        ensures
            final(self).wf(),
            final(self).decl() == old(self).decl().at_extent(extent),
    {
        let n = self.frame_buffer.len();
        let mut i: usize = 0;
        while i < n
            invariant
                self.frame_buffer.wf(),
                self.set_layout == old(self).set_layout,
                self.binds == old(self).binds,
                self.passes == old(self).passes,
                self.frame_buffer.keys() == old(self).frame_buffer.keys(),
                n == self.frame_buffer.items().len(),
                n == old(self).frame_buffer.items().len(),
                i <= n,
                forall|k: int|
                    0 <= k < i ==> self.frame_buffer.items()[k] == (FrameDesc {
                        width: extent.width,
                        height: extent.height,
                        ..old(self).frame_buffer.items()[k]
                    }),
                forall|k: int|
                    i <= k < n ==> self.frame_buffer.items()[k] == old(self).frame_buffer.items()[k],
            decreases n - i,
        {
            let desc = *self.frame_buffer.item_at(i);
            self.frame_buffer.replace(
                i,
                FrameDesc { width: extent.width, height: extent.height, ..desc },
            );
            i += 1;
        }
        assert(self.decl().transients =~= old(self).decl().at_extent(extent).transients);
    }

    /// The first pass before `upto` that renders into `t`.
    fn producer_of(&self, t: FrameBufferHandle, upto: usize) -> (r: Option<usize>)
        requires
            upto <= self.decl().passes.len(),
        ensures
            match r {
                Some(j) => j < upto && self.decl().produces(j as int, t) && forall|k: int|
                    0 <= k < j ==> !self.decl().produces(k, t),
                None => forall|k: int| 0 <= k < upto ==> !self.decl().produces(k, t),
            },
    {
        let mut j: usize = 0;
        while j < upto
            invariant
                j <= upto <= self.passes@.len(),
                forall|k: int| 0 <= k < j ==> !self.decl().produces(k, t),
            decreases upto - j,
        {
            match self.passes[j].target {
                RenderTarget::FrameBuffer(h) => {
                    if h.key == t.key {
                        return Some(j);
                    }
                },
                RenderTarget::Swapchain => {},
            }
            j += 1;
        }
        None
    }

    /// Whether pass `c` binds set `s`.
    fn pass_binds_set(&self, c: usize, s: DescriptorSetHandle) -> (r: bool)
        requires
            c < self.decl().passes.len(),
        ensures
            r == self.decl().consumes(c as int, s),
    {
        let sets = &self.passes[c].bind_sets;
        let mut k: usize = 0;
        while k < sets.len()
            invariant
                k <= sets@.len(),
                c < self.passes@.len(),
                sets == &self.passes@[c as int].bind_sets,
                forall|m: int| 0 <= m < k ==> sets@[m].set_handle != s,
            decreases sets@.len() - k,
        {
            if sets[k].set_handle.key == s.key {
                return true;
            }
            k += 1;
        }
        false
    }

    /// Whether edge `i` dangles.
    fn is_dangling(&self, i: usize) -> (r: bool)
        requires
            self.wf(),
            i < self.decl().binds.len(),
        ensures
            r == self.decl().bind_dangling(i as int),
    {
        let edge = self.binds[i];
        if !self.frame_buffer.contains(edge.frame.key) {
            return true;
        }
        let declared = match self.set_layout.get(edge.set.key) {
            Some(layout) => layout.has_binding(edge.bind),
            None => false,
        };
        if !declared {
            return true;
        }
        self.producer_of(edge.frame, self.passes.len()).is_none()
    }

    /// The first edge that dangles.
    fn first_dangling(&self) -> (r: Option<usize>)
        requires
            self.wf(),
        ensures
            match r {
                Some(i) => i < self.decl().binds.len() && self.decl().bind_dangling(i as int)
                    && forall|k: int| 0 <= k < i ==> !self.decl().bind_dangling(k),
                None => self.decl().binds_resolve(),
            },
    {
        let mut i: usize = 0;
        while i < self.binds.len()
            invariant
                self.wf(),
                i <= self.binds@.len(),
                forall|k: int| 0 <= k < i ==> !self.decl().bind_dangling(k),
            decreases self.binds@.len() - i,
        {
            if self.is_dangling(i) {
                return Some(i);
            }
            i += 1;
        }
        None
    }

    /// The first pass that renders into a handle that is no transient.
    fn first_unknown_target(&self) -> (r: Option<usize>)
        requires
            self.wf(),
        ensures
            match r {
                Some(j) => j < self.decl().passes.len() && self.decl().target_unknown(j as int)
                    && forall|k: int| 0 <= k < j ==> !self.decl().target_unknown(k),
                None => self.decl().targets_known(),
            },
    {
        let mut j: usize = 0;
        while j < self.passes.len()
            invariant
                self.wf(),
                j <= self.passes@.len(),
                forall|k: int| 0 <= k < j ==> !self.decl().target_unknown(k),
            decreases self.passes@.len() - j,
        {
            match self.passes[j].target {
                RenderTarget::FrameBuffer(t) => {
                    if !self.frame_buffer.contains(t.key) {
                        return Some(j);
                    }
                },
                RenderTarget::Swapchain => {},
            }
            j += 1;
        }
        None
    }

    /// The first pass that renders into a transient an earlier pass renders
    /// into.
    fn first_duplicate_target(&self) -> (r: Option<usize>)
        requires
            self.wf(),
        ensures
            match r {
                Some(j) => j < self.decl().passes.len() && self.decl().target_duplicate(j as int)
                    && forall|k: int| 0 <= k < j ==> !self.decl().target_duplicate(k),
                None => self.decl().targets_unique(),
            },
    {
        let mut j: usize = 0;
        while j < self.passes.len()
            invariant
                self.wf(),
                j <= self.passes@.len(),
                forall|k: int| 0 <= k < j ==> !self.decl().target_duplicate(k),
            decreases self.passes@.len() - j,
        {
            match self.passes[j].target {
                RenderTarget::FrameBuffer(t) => {
                    if self.producer_of(t, j).is_some() {
                        return Some(j);
                    }
                },
                RenderTarget::Swapchain => {},
            }
            j += 1;
        }
        None
    }

    /// Whether the transient of edge `i` is sampled no later than it is
    /// rendered.
    fn is_misordered(&self, i: usize) -> (r: bool)
        requires
            self.wf(),
            self.decl().binds_resolve(),
            self.decl().targets_unique(),
            i < self.decl().binds.len(),
        ensures
            r == self.decl().bind_misordered(i as int),
    {
        let edge = self.binds[i];
        let ghost d = self.decl();
        match self.producer_of(edge.frame, self.passes.len()) {
            Some(p) => {
                proof {
                    assert forall|q: int| d.produces(q, edge.frame) implies q == p by {
                        if q < p {
                            assert(d.produces(q, edge.frame));
                            assert(d.target_duplicate(p as int));
                        } else if p < q {
                            let t = d.passes[q].target->FrameBuffer_0;
                            assert(t == edge.frame);
                            assert(0 <= p < q && d.produces(p as int, t));
                            assert(d.target_duplicate(q));
                        }
                    }
                }
                let mut c: usize = 0;
                while c <= p
                    invariant
                        c <= p + 1,
                        p < self.passes@.len() <= usize::MAX,
                        d == self.decl(),
                        i < d.binds.len(),
                        edge == d.binds[i as int],
                        d.produces(p as int, edge.frame),
                        forall|q: int| d.produces(q, edge.frame) ==> q == p,
                        forall|k: int| 0 <= k < c ==> !d.consumes(k, edge.set),
                    decreases p + 1 - c,
                {
                    if self.pass_binds_set(c, edge.set) {
                        assert(d.produces(p as int, d.binds[i as int].frame) && d.consumes(
                            c as int,
                            d.binds[i as int].set,
                        ));
                        return true;
                    }
                    c += 1;
                }
                false
            },
            None => {
                assert(!d.bind_dangling(i as int));
                assert(d.has_producer(edge.frame));
                false
            },
        }
    }

    /// The first edge whose transient is sampled no later than it is
    /// rendered.
    fn first_misordered(&self) -> (r: Option<usize>)
        requires
            self.wf(),
            self.decl().binds_resolve(),
            self.decl().targets_unique(),
        ensures
            match r {
                Some(i) => i < self.decl().binds.len() && self.decl().bind_misordered(i as int)
                    && forall|k: int| 0 <= k < i ==> !self.decl().bind_misordered(k),
                None => self.decl().producers_first(),
            },
    {
        let mut i: usize = 0;
        while i < self.binds.len()
            invariant
                self.wf(),
                self.decl().binds_resolve(),
                self.decl().targets_unique(),
                i <= self.binds@.len(),
                forall|k: int| 0 <= k < i ==> !self.decl().bind_misordered(k),
            decreases self.binds@.len() - i,
        {
            if self.is_misordered(i) {
                return Some(i);
            }
            i += 1;
        }
        None
    }

    /// Whether each set that pass `j` binds is a set of this graph, bound at
    /// a set index of `layout`, with the layout that `layout` has there.
    fn bound_sets_fit(&self, j: usize, layout: &PipelineLayout) -> (r: bool)
        requires
            self.wf(),
            j < self.decl().passes.len(),
            self.decl().passes[j as int].bind_sets@.len() == layout.set_layouts@.len(),
        ensures
            r == (forall|k: int|
                0 <= k < self.decl().passes[j as int].bind_sets@.len() ==> {
                    let bound = #[trigger] self.decl().passes[j as int].bind_sets@[k];
                    &&& bound.set < self.decl().passes[j as int].bind_sets@.len()
                    &&& self.decl().set_keys.contains(bound.set_handle.key)
                    &&& layout.set_layouts@[bound.set as int] == self.decl().layout_of(
                        bound.set_handle,
                    ).raw
                }),
    {
        let pass = &self.passes[j];
        let n = pass.bind_sets.len();
        let ghost d = self.decl();
        let mut k: usize = 0;
        while k < n
            invariant
                self.wf(),
                d == self.decl(),
                j < self.passes@.len(),
                pass == &self.passes@[j as int],
                n == pass.bind_sets@.len(),
                n == layout.set_layouts@.len(),
                k <= n,
                forall|m: int|
                    0 <= m < k ==> {
                        let bound = #[trigger] pass.bind_sets@[m];
                        &&& bound.set < n
                        &&& d.set_keys.contains(bound.set_handle.key)
                        &&& layout.set_layouts@[bound.set as int] == d.layout_of(
                            bound.set_handle,
                        ).raw
                    },
            decreases n - k,
        {
            let bound = pass.bind_sets[k];
            if bound.set as usize >= n {
                return false;
            }
            match self.set_layout.get(bound.set_handle.key) {
                Some(set_layout) => {
                    if layout.set_layouts[bound.set as usize] != set_layout.raw {
                        return false;
                    }
                },
                None => {
                    return false;
                },
            }
            k += 1;
        }
        true
    }

    /// Whether the pipeline layout of pass `j` matches the pass.
    fn layout_matches(&self, j: usize, layouts: &ResourceManager) -> (r: bool)
        requires
            self.wf(),
            layouts.wf(),
            j < self.decl().passes.len(),
        ensures
            r == self.decl().pass_layout_ok(j as int, layouts.layouts()),
    {
        let pass = &self.passes[j];
        let layout = match layouts.get_layout(pass.layout) {
            Some(layout) => layout,
            None => {
                return false;
            },
        };
        if pass.pipeline.layout() != layout.raw {
            return false;
        }
        if pass.bind_sets.len() != layout.set_layouts.len() {
            return false;
        }
        if pass.bind_sets.len() > u32::MAX as usize {
            return false;
        }
        if !same_ranges(&pass.push_constants, &layout.push_constants) {
            return false;
        }
        if !self.bound_sets_fit(j, layout) {
            return false;
        }
        distinct_indices(&pass.bind_sets)
    }

    /// The first pass whose pipeline layout does not match it.
    fn first_layout_mismatch(&self, layouts: &ResourceManager) -> (r: Option<usize>)
        requires
            self.wf(),
            layouts.wf(),
        ensures
            match r {
                Some(j) => j < self.decl().passes.len() && !self.decl().pass_layout_ok(
                    j as int,
                    layouts.layouts(),
                ) && forall|k: int| 0 <= k < j ==> self.decl().pass_layout_ok(k, layouts.layouts()),
                None => self.decl().layouts_match(layouts.layouts()),
            },
    {
        let mut j: usize = 0;
        while j < self.passes.len()
            invariant
                self.wf(),
                layouts.wf(),
                j <= self.passes@.len(),
                forall|k: int| 0 <= k < j ==> self.decl().pass_layout_ok(k, layouts.layouts()),
            decreases self.passes@.len() - j,
        {
            if !self.layout_matches(j, layouts) {
                return Some(j);
            }
            j += 1;
        }
        None
    }

    /// Checks the graph against the rules of `GraphDecl::valid` and reports
    /// the first rule that is broken.
    pub fn validate(&self, layouts: &ResourceManager) -> (r: Result<(), CompileError>)
        requires
            self.wf(),
            layouts.wf(),
        ensures
            r is Ok <==> self.decl().valid(layouts.layouts()),
            r matches Err(e) ==> self.decl().explains(layouts.layouts(), e),
    {
        if let Some(i) = self.first_dangling() {
            return Err(CompileError::DanglingBind(self.binds[i].frame));
        }
        if let Some(j) = self.first_unknown_target() {
            match self.passes[j].target {
                RenderTarget::FrameBuffer(t) => {
                    return Err(CompileError::UnknownTarget(t));
                },
                RenderTarget::Swapchain => {},
            }
        }
        if let Some(j) = self.first_duplicate_target() {
            match self.passes[j].target {
                RenderTarget::FrameBuffer(t) => {
                    return Err(CompileError::DuplicateProducer(t));
                },
                RenderTarget::Swapchain => {},
            }
        }
        if let Some(i) = self.first_misordered() {
            return Err(CompileError::ProducerAfterConsumer(self.binds[i].frame));
        }
        if let Some(j) = self.first_layout_mismatch(layouts) {
            return Err(CompileError::LayoutMismatch(j));
        }
        Ok(())
    }
}

} // verus!

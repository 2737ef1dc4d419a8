//! Plain descriptions of the Vulkan objects and enumerations the graph
//! speaks of. Object handles are carried as their raw 64-bit values.

use vstd::prelude::*;

verus! {

/// Width and height in pixels.
#[derive(Clone, Copy, Debug, PartialEq, Eq, Structural)]
pub struct Extent2D {
    pub width: u32,
    pub height: u32,
}

/// An image format, by its Vulkan number.
#[derive(Clone, Copy, Debug, PartialEq, Eq, Structural)]
pub struct Format {
    pub raw: i32,
}

impl Format {
    /// 8-bit sRGB RGBA, the colour format of the swapchain and of transients.
    pub fn r8g8b8a8_srgb() -> (r: Format)
        ensures
            r.raw == 43,
    {
        Format { raw: 43 }
    }

    /// 32-bit float depth.
    pub fn d32_sfloat() -> (r: Format)
        ensures
            r.raw == 126,
    {
        Format { raw: 126 }
    }

    /// Three 32-bit floats, the format of a vertex attribute.
    pub fn r32g32b32_sfloat() -> (r: Format)
        ensures
            r.raw == 106,
    {
        Format { raw: 106 }
    }
}

/// What an image may be used for.
#[derive(Clone, Copy, Debug, PartialEq, Eq, Structural)]
pub struct ImageUsage {
    pub transfer_src: bool,
    pub transfer_dst: bool,
    pub sampled: bool,
    pub storage: bool,
    pub color_attachment: bool,
    pub depth_stencil_attachment: bool,
    pub transient_attachment: bool,
    pub input_attachment: bool,
}

impl ImageUsage {
    /// No use at all.
    pub fn empty() -> (r: ImageUsage)
        ensures
            r == (ImageUsage {
                transfer_src: false,
                transfer_dst: false,
                sampled: false,
                storage: false,
                color_attachment: false,
                depth_stencil_attachment: false,
                transient_attachment: false,
                input_attachment: false,
            }),
    {
        ImageUsage {
            transfer_src: false,
            transfer_dst: false,
            sampled: false,
            storage: false,
            color_attachment: false,
            depth_stencil_attachment: false,
            transient_attachment: false,
            input_attachment: false,
        }
    }

    /// Rendered into by one pass and sampled by later ones.
    pub fn color_target() -> (r: ImageUsage)
        ensures
            r == (ImageUsage {
                transfer_src: false,
                transfer_dst: false,
                sampled: true,
                storage: false,
                color_attachment: true,
                depth_stencil_attachment: false,
                transient_attachment: false,
                input_attachment: false,
            }),
    {
        ImageUsage {
            transfer_src: false,
            transfer_dst: false,
            sampled: true,
            storage: false,
            color_attachment: true,
            depth_stencil_attachment: false,
            transient_attachment: false,
            input_attachment: false,
        }
    }
}

/// The shader stages something is visible to.
#[derive(Clone, Copy, Debug, PartialEq, Eq, Structural)]
pub struct ShaderStages {
    pub vertex: bool,
    pub fragment: bool,
    pub compute: bool,
}

impl ShaderStages {
    /// The vertex stage alone.
    pub fn vertex() -> (r: ShaderStages)
        ensures
            r == (ShaderStages { vertex: true, fragment: false, compute: false }),
    {
        ShaderStages { vertex: true, fragment: false, compute: false }
    }

    /// The fragment stage alone.
    pub fn fragment() -> (r: ShaderStages)
        ensures
            r == (ShaderStages { vertex: false, fragment: true, compute: false }),
    {
        ShaderStages { vertex: false, fragment: true, compute: false }
    }
}

/// The image layouts the graph moves images between.
#[derive(Clone, Copy, Debug, PartialEq, Eq, Structural)]
pub enum ImageLayout {
    Undefined,
    ColorAttachmentOptimal,
    DepthStencilAttachmentOptimal,
    ShaderReadOnlyOptimal,
    PresentSrc,
}

/// The kinds of descriptor a pool provides.
#[derive(Clone, Copy, Debug, PartialEq, Eq, Structural)]
pub enum DescriptorType {
    Sampler,
    CombinedImageSampler,
    UniformBuffer,
    StorageBuffer,
    StorageImage,
}

/// The pipeline stages named in barriers and submissions.
#[derive(Clone, Copy, Debug, PartialEq, Eq, Structural)]
pub enum PipelineStage {
    ColorAttachmentOutput,
    EarlyFragmentTests,
    FragmentShader,
}

/// The memory accesses named in barriers.
#[derive(Clone, Copy, Debug, PartialEq, Eq, Structural)]
pub enum Access {
    Nothing,
    ShaderRead,
    ColorAttachmentWrite,
    DepthStencilAttachmentWrite,
}

/// Where a pipeline binds.
#[derive(Clone, Copy, Debug, PartialEq, Eq, Structural)]
pub enum BindPoint {
    Graphics,
    Compute,
}

/// A device image.
#[derive(Clone, Copy, Debug, PartialEq, Eq, Structural)]
pub struct Image {
    pub raw: u64,
}

/// A view of an image.
#[derive(Clone, Copy, Debug, PartialEq, Eq, Structural)]
pub struct ImageView {
    pub raw: u64,
}

/// A sampler.
#[derive(Clone, Copy, Debug, PartialEq, Eq, Structural)]
pub struct Sampler {
    pub raw: u64,
}

/// A framebuffer.
#[derive(Clone, Copy, Debug, PartialEq, Eq, Structural)]
pub struct FrameBuffer {
    pub raw: u64,
}

/// A render pass object.
#[derive(Clone, Copy, Debug, PartialEq, Eq, Structural)]
pub struct RenderPass {
    pub raw: u64,
}

/// A semaphore.
#[derive(Clone, Copy, Debug, PartialEq, Eq, Structural)]
pub struct Semaphore {
    pub raw: u64,
}

/// A fence.
#[derive(Clone, Copy, Debug, PartialEq, Eq, Structural)]
pub struct Fence {
    pub raw: u64,
}

/// A command pool.
#[derive(Clone, Copy, Debug, PartialEq, Eq, Structural)]
pub struct CommandPool {
    pub raw: u64,
}

/// A swapchain.
#[derive(Clone, Copy, Debug, PartialEq, Eq, Structural)]
pub struct Swapchain {
    pub raw: u64,
}

/// A graphics pipeline together with the pipeline layout it was created with.
#[derive(Clone, Copy, Debug, PartialEq, Eq, Structural)]
pub struct GraphicsPipeline {
    pub raw: u64,
    pub layout: u64,
}

/// A compute pipeline together with the pipeline layout it was created with.
#[derive(Clone, Copy, Debug, PartialEq, Eq, Structural)]
pub struct ComputePipeline {
    pub raw: u64,
    pub layout: u64,
}

/// A range of push-constant bytes and the stages that read it.
#[derive(Clone, Copy, Debug, PartialEq, Eq, Structural)]
pub struct PushConstantRange {
    pub stages: ShaderStages,
    pub offset: u32,
    pub size: u32,
}

impl PushConstantRange {
    /// The default budget: 128 bytes at offset 0 for the vertex stage.
    pub fn default_budget() -> (r: PushConstantRange)
        ensures
            r == (PushConstantRange {
                stages: ShaderStages { vertex: true, fragment: false, compute: false },
                offset: 0,
                size: 128,
            }),
    {
        PushConstantRange { stages: ShaderStages::vertex(), offset: 0, size: 128 }
    }
}

/// One binding of a descriptor-set layout.
#[derive(Clone, Copy, Debug, PartialEq, Eq, Structural)]
pub struct LayoutBinding {
    pub binding: u32,
    pub count: u32,
    pub ty: DescriptorType,
    pub stages: ShaderStages,
}

impl LayoutBinding {
    /// A single combined image sampler at `binding`, read by the fragment
    /// stage.
    pub fn sampled_image(binding: u32) -> (r: LayoutBinding)
        ensures
            r == (LayoutBinding {
                binding,
                count: 1,
                ty: DescriptorType::CombinedImageSampler,
                stages: ShaderStages { vertex: false, fragment: true, compute: false },
            }),
    {
        LayoutBinding {
            binding,
            count: 1,
            ty: DescriptorType::CombinedImageSampler,
            stages: ShaderStages::fragment(),
        }
    }
}

/// A descriptor-set layout: the device object and the bindings it was
/// created from, in order.
#[derive(Clone, Debug, PartialEq, Eq)]
pub struct DescriptorSetLayout {
    pub raw: u64,
    pub bindings: Vec<LayoutBinding>,
}

impl DescriptorSetLayout {
    /// Whether the layout declares a binding with this index.
    pub open spec fn declares(&self, binding: u32) -> bool {
        exists|i: int| 0 <= i < self.bindings@.len() && #[trigger] self.bindings@[i].binding == binding
    }

    /// Whether the layout declares a binding with this index.
    pub fn has_binding(&self, binding: u32) -> (r: bool)
        ensures
            r == self.declares(binding),
    {
        let mut i: usize = 0;
        while i < self.bindings.len()
            invariant
                i <= self.bindings@.len(),
                forall|k: int| 0 <= k < i ==> self.bindings@[k].binding != binding,
            decreases self.bindings@.len() - i,
        {
            if self.bindings[i].binding == binding {
                return true;
            }
            i += 1;
        }
        false
    }
}

/// A pipeline layout: the device object, the descriptor-set layouts it was
/// created from, by set index, and its push-constant ranges.
#[derive(Clone, Debug, PartialEq, Eq)]
pub struct PipelineLayout {
    pub raw: u64,
    pub set_layouts: Vec<u64>,
    pub push_constants: Vec<PushConstantRange>,
}


/// How often a vertex binding advances.
#[derive(Clone, Copy, Debug, PartialEq, Eq, Structural)]
pub enum VertexInputRate {
    Vertex,
    Instance,
}

/// One attribute of a vertex as a shader reads it.
#[derive(Clone, Copy, Debug, PartialEq, Eq, Structural)]
pub struct VertexInputAttributeDescription {
    pub location: u32,
    pub binding: u32,
    pub format: Format,
    pub offset: u32,
}

/// One vertex buffer binding.
#[derive(Clone, Copy, Debug, PartialEq, Eq, Structural)]
pub struct VertexInputBindingDescription {
    pub binding: u32,
    pub stride: u32,
    pub input_rate: VertexInputRate,
}

/// A vertex type that can say which attributes it has.
pub trait AttributeDescriptions {
    fn attr_desc() -> Vec<VertexInputAttributeDescription>;
}

/// A vertex type that can say how its buffer is bound.
pub trait BindingDescriptions {
    fn bind_desc() -> Vec<VertexInputBindingDescription>;
}

/// The vertex of the default pipeline: a position and a colour, three 32-bit
/// floats each, held here as their bit patterns.
#[derive(Clone, Copy, Debug)]
pub struct Vertex {
    pub pos: [u32; 3],
    pub color: [u32; 3],
}

/// The attributes of the default vertex: the position at location 0 and
/// offset 0, the colour at location 1 and offset 12, both in binding 0.
pub open spec fn vertex_attributes() -> Seq<VertexInputAttributeDescription> {
    seq![
        VertexInputAttributeDescription {
            location: 0,
            binding: 0,
            format: Format { raw: 106 },
            offset: 0,
        },
        VertexInputAttributeDescription {
            location: 1,
            binding: 0,
            format: Format { raw: 106 },
            offset: 12,
        },
    ]
}

/// The binding of the default vertex: binding 0, 24 bytes per vertex,
/// advancing per vertex.
pub open spec fn vertex_bindings() -> Seq<VertexInputBindingDescription> {
    seq![
        VertexInputBindingDescription { binding: 0, stride: 24, input_rate: VertexInputRate::Vertex },
    ]
}

impl AttributeDescriptions for Vertex {
    fn attr_desc() -> (r: Vec<VertexInputAttributeDescription>)
        ensures
            r@ == vertex_attributes(),
    {
        let mut attributes: Vec<VertexInputAttributeDescription> = Vec::new();
        attributes.push(
            VertexInputAttributeDescription {
                location: 0,
                binding: 0,
                format: Format::r32g32b32_sfloat(),
                offset: 0,
            },
        );
        attributes.push(
            VertexInputAttributeDescription {
                binding: 0,
                location: 1,
                format: Format::r32g32b32_sfloat(),
                offset: 12,
            },
        );
        assert(attributes@ =~= vertex_attributes());
        attributes
    }
}

impl BindingDescriptions for Vertex {
    fn bind_desc() -> (r: Vec<VertexInputBindingDescription>)
        ensures
            r@ == vertex_bindings(),
    {
        let mut bindings: Vec<VertexInputBindingDescription> = Vec::new();
        bindings.push(
            VertexInputBindingDescription {
                binding: 0,
                stride: 24,
                input_rate: VertexInputRate::Vertex,
            },
        );
        assert(bindings@ =~= vertex_bindings());
        bindings
    }
}

} // verus!

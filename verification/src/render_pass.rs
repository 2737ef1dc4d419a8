//! The description of the render pass that the swapchain and the transients
//! share: one colour attachment and one depth attachment, one subpass.

use crate::types::{BindPoint, Format, ImageLayout};
use vstd::prelude::*;

verus! {

/// What happens to an attachment when the render pass begins.
#[derive(Clone, Copy, Debug, PartialEq, Eq, Structural)]
pub enum LoadOp {
    Load,
    Clear,
    DontCare,
}

/// What happens to an attachment when the render pass ends.
#[derive(Clone, Copy, Debug, PartialEq, Eq, Structural)]
pub enum StoreOp {
    Store,
    DontCare,
}

/// One attachment of a render pass, with a single sample per pixel.
#[derive(Clone, Copy, Debug, PartialEq, Eq, Structural)]
pub struct AttachmentDescription {
    pub format: Format,
    pub load_op: LoadOp,
    pub store_op: StoreOp,
    pub stencil_load_op: LoadOp,
    pub stencil_store_op: StoreOp,
    pub initial_layout: ImageLayout,
    pub final_layout: ImageLayout,
}

/// A use of an attachment by a subpass, in a layout.
#[derive(Clone, Copy, Debug, PartialEq, Eq, Structural)]
pub struct AttachmentReference {
    pub attachment: u32,
    pub layout: ImageLayout,
}

/// A set of pipeline stages.
#[derive(Clone, Copy, Debug, PartialEq, Eq, Structural)]
pub struct StageMask {
    pub color_attachment_output: bool,
    pub early_fragment_tests: bool,
    pub fragment_shader: bool,
}

/// A set of memory accesses.
#[derive(Clone, Copy, Debug, PartialEq, Eq, Structural)]
pub struct AccessMask {
    pub shader_read: bool,
    pub color_attachment_write: bool,
    pub depth_stencil_attachment_write: bool,
}

/// A dependency of a subpass on what came before the render pass. `None` as
/// the source stands for the work outside the render pass.
#[derive(Clone, Copy, Debug, PartialEq, Eq, Structural)]
pub struct SubpassDependency {
    pub src_subpass: Option<u32>,
    pub dst_subpass: u32,
    pub src_stage_mask: StageMask,
    pub dst_stage_mask: StageMask,
    pub src_access_mask: AccessMask,
    pub dst_access_mask: AccessMask,
    pub by_region: bool,
}

/// Collects the attachments of a subpass.
#[derive(Clone, Debug, PartialEq, Eq)]
pub struct SubpassDesc {
    pub color_attachments: Vec<AttachmentReference>,
    pub depth_attachment: Option<AttachmentReference>,
    pub input_attachments: Vec<AttachmentReference>,
    pub bind_point: Option<BindPoint>,
    pub flags: Option<u32>,
}

impl SubpassDesc {
    /// A subpass without attachments, bind point or flags.
    pub fn empty() -> (r: SubpassDesc)
        ensures
            r.color_attachments@.len() == 0,
            r.depth_attachment is None,
            r.input_attachments@.len() == 0,
            r.bind_point is None,
            r.flags is None,
    {
        SubpassDesc {
            color_attachments: Vec::new(),
            depth_attachment: None,
            input_attachments: Vec::new(),
            bind_point: None,
            flags: None,
        }
    }

    /// Adds a colour attachment.
    pub fn add_color_attachment_ref(self, attachment: AttachmentReference) -> (r: SubpassDesc)
        ensures
            r.color_attachments@ == self.color_attachments@.push(attachment),
            r.depth_attachment == self.depth_attachment,
            r.input_attachments == self.input_attachments,
            r.bind_point == self.bind_point,
            r.flags == self.flags,
    {
        let mut color_attachments = self.color_attachments;
        color_attachments.push(attachment);
        SubpassDesc { color_attachments, ..self }
    }

    /// Sets the colour attachments.
    pub fn color_attachments(self, attachments: Vec<AttachmentReference>) -> (r: SubpassDesc)
        ensures
            r.color_attachments == attachments,
            r.depth_attachment == self.depth_attachment,
            r.input_attachments == self.input_attachments,
            r.bind_point == self.bind_point,
            r.flags == self.flags,
    {
        SubpassDesc { color_attachments: attachments, ..self }
    }

    /// Sets where the subpass binds its pipelines.
    pub fn with_bind_point(self, bind_point: BindPoint) -> (r: SubpassDesc)
        ensures
            r.bind_point == Some(bind_point),
            r.color_attachments == self.color_attachments,
            r.depth_attachment == self.depth_attachment,
            r.input_attachments == self.input_attachments,
            r.flags == self.flags,
    {
        SubpassDesc { bind_point: Some(bind_point), ..self }
    }

    /// Sets the depth attachment.
    pub fn add_depth_attachment_ref(self, attachment: AttachmentReference) -> (r: SubpassDesc)
        ensures
            r.depth_attachment == Some(attachment),
            r.color_attachments == self.color_attachments,
            r.input_attachments == self.input_attachments,
            r.bind_point == self.bind_point,
            r.flags == self.flags,
    {
        SubpassDesc { depth_attachment: Some(attachment), ..self }
    }

    /// Adds an input attachment.
    pub fn add_input_attachment_ref(self, attachment: AttachmentReference) -> (r: SubpassDesc)
        ensures
            r.input_attachments@ == self.input_attachments@.push(attachment),
            r.color_attachments == self.color_attachments,
            r.depth_attachment == self.depth_attachment,
            r.bind_point == self.bind_point,
            r.flags == self.flags,
    {
        let mut input_attachments = self.input_attachments;
        input_attachments.push(attachment);
        SubpassDesc { input_attachments, ..self }
    }

    /// Sets the input attachments.
    pub fn input_attachments(self, attachments: Vec<AttachmentReference>) -> (r: SubpassDesc)
        ensures
            r.input_attachments == attachments,
            r.color_attachments == self.color_attachments,
            r.depth_attachment == self.depth_attachment,
            r.bind_point == self.bind_point,
            r.flags == self.flags,
    {
        SubpassDesc { input_attachments: attachments, ..self }
    }

    /// Sets the flags of the subpass.
    pub fn flags(self, flags: u32) -> (r: SubpassDesc)
        ensures
            r.flags == Some(flags),
            r.color_attachments == self.color_attachments,
            r.depth_attachment == self.depth_attachment,
            r.input_attachments == self.input_attachments,
            r.bind_point == self.bind_point,
    {
        SubpassDesc { flags: Some(flags), ..self }
    }
}

/// A subpass: its attachments, where it binds, and its flags.
#[derive(Clone, Debug, PartialEq, Eq)]
pub struct Subpass {
    pub color_attachments: Vec<AttachmentReference>,
    pub depth_attachment: Option<AttachmentReference>,
    pub input_attachments: Vec<AttachmentReference>,
    pub bind_point: BindPoint,
    pub flags: u32,
}

impl Subpass {
    /// The subpass a description describes; flags that were not set are
    /// none. A subpass has to say where it binds.
    pub fn new(desc: SubpassDesc) -> (r: Subpass)
        requires
            desc.bind_point is Some,
        ensures
            r.color_attachments == desc.color_attachments,
            r.depth_attachment == desc.depth_attachment,
            r.input_attachments == desc.input_attachments,
            Some(r.bind_point) == desc.bind_point,
            r.flags == (match desc.flags {
                Some(flags) => flags,
                None => 0,
            }),
    {
        let bind_point = match desc.bind_point {
            Some(bind_point) => bind_point,
            None => BindPoint::Graphics,
        };
        let flags = match desc.flags {
            Some(flags) => flags,
            None => 0,
        };
        Subpass {
            color_attachments: desc.color_attachments,
            depth_attachment: desc.depth_attachment,
            input_attachments: desc.input_attachments,
            bind_point,
            flags,
        }
    }
}

/// Collects what a render pass is created from.
#[derive(Clone, Debug, PartialEq, Eq)]
pub struct RenderPassBuilder {
    pub attachments: Option<Vec<AttachmentDescription>>,
    pub dependencies: Option<Vec<SubpassDependency>>,
    pub subpasses: Option<Vec<Subpass>>,
}

/// The colour attachment of the shared render pass: cleared on load, stored,
/// its former contents of no interest, left in `final_layout`.
pub open spec fn color_attachment(format: Format, final_layout: ImageLayout) -> AttachmentDescription {
    AttachmentDescription {
        format,
        load_op: LoadOp::Clear,
        store_op: StoreOp::Store,
        stencil_load_op: LoadOp::DontCare,
        stencil_store_op: StoreOp::DontCare,
        initial_layout: ImageLayout::Undefined,
        final_layout,
    }
}

/// The depth attachment of the shared render pass: cleared on load and not
/// kept.
pub open spec fn depth_attachment(format: Format) -> AttachmentDescription {
    AttachmentDescription {
        format,
        load_op: LoadOp::Clear,
        store_op: StoreOp::DontCare,
        stencil_load_op: LoadOp::DontCare,
        stencil_store_op: StoreOp::DontCare,
        initial_layout: ImageLayout::Undefined,
        final_layout: ImageLayout::DepthStencilAttachmentOptimal,
    }
}

/// The dependency of the single subpass on the work before the render pass:
/// its colour and depth writes wait for colour output and early fragment
/// tests.
pub open spec fn external_dependency() -> SubpassDependency {
    SubpassDependency {
        src_subpass: None,
        dst_subpass: 0,
        src_stage_mask: StageMask {
            color_attachment_output: true,
            early_fragment_tests: true,
            fragment_shader: false,
        },
        dst_stage_mask: StageMask {
            color_attachment_output: true,
            early_fragment_tests: true,
            fragment_shader: false,
        },
        src_access_mask: AccessMask {
            shader_read: false,
            color_attachment_write: false,
            depth_stencil_attachment_write: false,
        },
        dst_access_mask: AccessMask {
            shader_read: false,
            color_attachment_write: true,
            depth_stencil_attachment_write: true,
        },
        by_region: true,
    }
}

impl RenderPassBuilder {
    /// Whether this is the shared render pass for the given formats that
    /// leaves the colour attachment in `final_layout`: attachment 0 is the
    /// colour attachment, attachment 1 the depth attachment, and the one
    /// graphics subpass uses both.
    pub open spec fn is_shared_pass(&self, color: Format, depth: Format, final_layout: ImageLayout) -> bool {
        &&& self.attachments matches Some(attachments) && attachments@ == seq![
            color_attachment(color, final_layout),
            depth_attachment(depth),
        ]
        &&& self.dependencies matches Some(dependencies) && dependencies@ == seq![
            external_dependency(),
        ]
        &&& self.subpasses matches Some(subpasses) && subpasses@.len() == 1 && {
            let subpass = subpasses@[0];
            &&& subpass.bind_point == BindPoint::Graphics
            &&& subpass.flags == 0
            &&& subpass.color_attachments@ == seq![
                AttachmentReference { attachment: 0, layout: ImageLayout::ColorAttachmentOptimal },
            ]
            &&& subpass.depth_attachment == Some(
                AttachmentReference {
                    attachment: 1,
                    layout: ImageLayout::DepthStencilAttachmentOptimal,
                },
            )
            &&& subpass.input_attachments@.len() == 0
        }
    }

    /// The shared render pass that leaves the colour attachment in
    /// `final_layout`.
    fn shared(color: Format, depth: Format, final_layout: ImageLayout) -> (r: RenderPassBuilder)
        ensures
            r.is_shared_pass(color, depth, final_layout),
    {
        let subpass = Subpass::new(
            SubpassDesc::empty().add_color_attachment_ref(
                AttachmentReference { attachment: 0, layout: ImageLayout::ColorAttachmentOptimal },
            ).add_depth_attachment_ref(
                AttachmentReference {
                    attachment: 1,
                    layout: ImageLayout::DepthStencilAttachmentOptimal,
                },
            ).with_bind_point(BindPoint::Graphics),
        );
        let mut attachments: Vec<AttachmentDescription> = Vec::new();
        attachments.push(
            AttachmentDescription {
                format: color,
                load_op: LoadOp::Clear,
                store_op: StoreOp::Store,
                stencil_load_op: LoadOp::DontCare,
                stencil_store_op: StoreOp::DontCare,
                initial_layout: ImageLayout::Undefined,
                final_layout,
            },
        );
        attachments.push(
            AttachmentDescription {
                format: depth,
                load_op: LoadOp::Clear,
                store_op: StoreOp::DontCare,
                stencil_load_op: LoadOp::DontCare,
                stencil_store_op: StoreOp::DontCare,
                initial_layout: ImageLayout::Undefined,
                final_layout: ImageLayout::DepthStencilAttachmentOptimal,
            },
        );
        let stages = StageMask {
            color_attachment_output: true,
            early_fragment_tests: true,
            fragment_shader: false,
        };
        let mut dependencies: Vec<SubpassDependency> = Vec::new();
        dependencies.push(
            SubpassDependency {
                src_subpass: None,
                dst_subpass: 0,
                src_stage_mask: stages,
                dst_stage_mask: stages,
                src_access_mask: AccessMask {
                    shader_read: false,
                    color_attachment_write: false,
                    depth_stencil_attachment_write: false,
                },
                dst_access_mask: AccessMask {
                    shader_read: false,
                    color_attachment_write: true,
                    depth_stencil_attachment_write: true,
                },
                by_region: true,
            },
        );
        let mut subpasses: Vec<Subpass> = Vec::new();
        subpasses.push(subpass);
        let r = RenderPassBuilder {
            attachments: Some(attachments),
            dependencies: Some(dependencies),
            subpasses: Some(subpasses),
        };
        proof {
            assert(r.attachments->0@ =~= seq![
                color_attachment(color, final_layout),
                depth_attachment(depth),
            ]);
            assert(r.dependencies->0@ =~= seq![external_dependency()]);
            assert(r.subpasses->0@[0].color_attachments@ =~= seq![
                AttachmentReference { attachment: 0, layout: ImageLayout::ColorAttachmentOptimal },
            ]);
        }
        r
    }

    /// The render pass of the swapchain: the colour attachment is left
    /// ready to present.
    pub fn default(color: Format, depth: Format) -> (r: RenderPassBuilder)
        ensures
            r.is_shared_pass(color, depth, ImageLayout::PresentSrc),
    {
        Self::shared(color, depth, ImageLayout::PresentSrc)
    }

    /// The render pass of the transients: compatible with that of the
    /// swapchain, but the colour attachment is left in the attachment
    /// layout, from which a barrier takes it on.
    pub fn offscreen(color: Format, depth: Format) -> (r: RenderPassBuilder)
        ensures
            r.is_shared_pass(color, depth, ImageLayout::ColorAttachmentOptimal),
    {
        Self::shared(color, depth, ImageLayout::ColorAttachmentOptimal)
    }
}

} // verus!

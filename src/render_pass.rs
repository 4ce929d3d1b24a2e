use vstd::prelude::*;
use crate::memory::MEMORY_PROPERTY_DEVICE_LOCAL;
use crate::swapchain_support::Extent2D;

verus! {

/// Raw sample-count flag of a single-sample image.
pub const SAMPLE_COUNT_1: u32 = 0x1;

/// Subpass index that stands for the work outside the render pass.
pub const SUBPASS_EXTERNAL: u32 = 0xFFFF_FFFF;

/// Pipeline stage bit: colour attachments are written.
pub const PIPELINE_STAGE_COLOR_ATTACHMENT_OUTPUT: u32 = 0x400;

/// Access bit: colour attachments are read.
pub const ACCESS_COLOR_ATTACHMENT_READ: u32 = 0x80;

/// Access bit: colour attachments are written.
pub const ACCESS_COLOR_ATTACHMENT_WRITE: u32 = 0x100;

/// Pipeline stage bit: the start of the pipeline, before any work.
pub const PIPELINE_STAGE_TOP_OF_PIPE: u32 = 0x1;

/// Pipeline stage bit: depth and stencil tests before fragment shading.
pub const PIPELINE_STAGE_EARLY_FRAGMENT_TESTS: u32 = 0x100;

/// Access bit: depth/stencil attachments are read.
pub const ACCESS_DEPTH_STENCIL_ATTACHMENT_READ: u32 = 0x200;

/// Access bit: depth/stencil attachments are written.
pub const ACCESS_DEPTH_STENCIL_ATTACHMENT_WRITE: u32 = 0x400;

/// Image usage bit: the image is a colour attachment.
pub const IMAGE_USAGE_COLOR_ATTACHMENT: u32 = 0x10;

/// Image usage bit: the image is a depth/stencil attachment.
pub const IMAGE_USAGE_DEPTH_STENCIL_ATTACHMENT: u32 = 0x20;

/// Image usage bit: the image lives only while a render pass runs.
pub const IMAGE_USAGE_TRANSIENT_ATTACHMENT: u32 = 0x40;

/// How an image's memory is laid out for the work that uses it.
#[derive(Clone, Copy, Debug, PartialEq, Eq, Structural)]
pub enum ImageLayout {
    Undefined,
    ColorAttachmentOptimal,
    DepthStencilAttachmentOptimal,
    /// Ready to be presented on the surface.
    PresentSrc,
}

/// What happens to an attachment's contents when a render pass begins.
#[derive(Clone, Copy, Debug, PartialEq, Eq, Structural)]
pub enum LoadOp {
    Load,
    Clear,
    DontCare,
}

/// What happens to an attachment's contents when a render pass ends.
#[derive(Clone, Copy, Debug, PartialEq, Eq, Structural)]
pub enum StoreOp {
    Store,
    DontCare,
}

/// Which aspect of an image a view shows.
#[derive(Clone, Copy, Debug, PartialEq, Eq, Structural)]
pub enum ImageAspect {
    Color,
    Depth,
}

#[derive(Clone, Copy, Debug, PartialEq, Eq, Structural)]
pub struct AttachmentDescription {
    pub format: i32,
    pub samples: u32,
    pub load_op: LoadOp,
    pub store_op: StoreOp,
    pub stencil_load_op: LoadOp,
    pub stencil_store_op: StoreOp,
    pub initial_layout: ImageLayout,
    pub final_layout: ImageLayout,
}

#[derive(Clone, Copy, Debug, PartialEq, Eq, Structural)]
pub struct AttachmentReference {
    pub attachment: u32,
    pub layout: ImageLayout,
}

/// The single graphics subpass of a render pass.
pub struct SubpassDescription {
    pub color_attachments: Vec<AttachmentReference>,
    pub depth_stencil_attachment: AttachmentReference,
    /// Empty, or one resolve target per colour attachment.
    pub resolve_attachments: Vec<AttachmentReference>,
}

#[derive(Clone, Copy, Debug, PartialEq, Eq, Structural)]
pub struct SubpassDependency {
    pub src_subpass: u32,
    pub dst_subpass: u32,
    pub src_stage_mask: u32,
    pub src_access_mask: u32,
    pub dst_stage_mask: u32,
    pub dst_access_mask: u32,
}

/// Everything the driver needs to create the render pass.
pub struct RenderPassLayout {
    pub attachments: Vec<AttachmentDescription>,
    pub subpass: SubpassDescription,
    pub dependency: SubpassDependency,
}

/// How to create, prepare and view one attachment image.
#[derive(Clone, Copy, Debug, PartialEq, Eq, Structural)]
pub struct TextureParams {
    pub memory_properties: u32,
    pub extent: Extent2D,
    pub sample_count: u32,
    pub format: i32,
    pub usage: u32,
    /// The layout the image is moved into, from undefined, once created.
    pub layout: ImageLayout,
    pub aspect: ImageAspect,
}

/// The barrier that moves an image from one layout to another: which earlier
/// accesses and stages it waits for, and which later ones wait for it.
#[derive(Clone, Copy, Debug, PartialEq, Eq, Structural)]
pub struct LayoutTransition {
    pub src_access_mask: u32,
    pub dst_access_mask: u32,
    pub src_stage_mask: u32,
    pub dst_stage_mask: u32,
}

/// What a render pass is made of: its layout and the attachment images it
/// owns. The multisampled colour image exists only when more than one sample
/// is taken; the depth image always does.
pub struct RenderPassDescription {
    pub layout: RenderPassLayout,
    pub color_texture: Option<TextureParams>,
    pub depth_texture: TextureParams,
}

pub open spec fn is_multisampled(samples: u32) -> bool {
    samples != SAMPLE_COUNT_1
}

/// The colour attachment that is rendered into. With one sample it is the
/// image that is presented; with more it is resolved into another first.
pub open spec fn spec_color_attachment(format: i32, samples: u32) -> AttachmentDescription {
    AttachmentDescription {
        format,
        samples,
        load_op: LoadOp::Clear,
        store_op: StoreOp::Store,
        stencil_load_op: LoadOp::Load,
        stencil_store_op: StoreOp::Store,
        initial_layout: ImageLayout::Undefined,
        final_layout: if is_multisampled(samples) {
            ImageLayout::ColorAttachmentOptimal
        } else {
            ImageLayout::PresentSrc
        },
    }
}

/// The depth attachment: cleared on load, its contents and stencil dropped.
pub open spec fn spec_depth_attachment(depth_format: i32, samples: u32) -> AttachmentDescription {
    AttachmentDescription {
        format: depth_format,
        samples,
        load_op: LoadOp::Clear,
        store_op: StoreOp::DontCare,
        stencil_load_op: LoadOp::DontCare,
        stencil_store_op: StoreOp::DontCare,
        initial_layout: ImageLayout::Undefined,
        final_layout: ImageLayout::DepthStencilAttachmentOptimal,
    }
}

/// The single-sample image a multisampled colour attachment resolves into,
/// which is then presented.
pub open spec fn spec_resolve_attachment(format: i32) -> AttachmentDescription {
    AttachmentDescription {
        format,
        samples: SAMPLE_COUNT_1,
        load_op: LoadOp::DontCare,
        store_op: StoreOp::Store,
        stencil_load_op: LoadOp::DontCare,
        stencil_store_op: StoreOp::DontCare,
        initial_layout: ImageLayout::Undefined,
        final_layout: ImageLayout::PresentSrc,
    }
}

/// Colour then depth, then the resolve target when multisampling.
pub open spec fn spec_attachments(format: i32, depth_format: i32, samples: u32) -> Seq<
    AttachmentDescription,
> {
    if is_multisampled(samples) {
        seq![
            spec_color_attachment(format, samples),
            spec_depth_attachment(depth_format, samples),
            spec_resolve_attachment(format),
        ]
    } else {
        seq![spec_color_attachment(format, samples), spec_depth_attachment(depth_format, samples)]
    }
}

/// No fragment is written before the previous presentation has finished
/// reading the image.
pub open spec fn spec_dependency() -> SubpassDependency {
    SubpassDependency {
        src_subpass: SUBPASS_EXTERNAL,
        dst_subpass: 0,
        src_stage_mask: PIPELINE_STAGE_COLOR_ATTACHMENT_OUTPUT,
        src_access_mask: 0,
        dst_stage_mask: PIPELINE_STAGE_COLOR_ATTACHMENT_OUTPUT,
        dst_access_mask: ACCESS_COLOR_ATTACHMENT_READ | ACCESS_COLOR_ATTACHMENT_WRITE,
    }
}

pub open spec fn spec_color_texture(format: i32, extent: Extent2D, samples: u32) -> TextureParams {
    TextureParams {
        memory_properties: MEMORY_PROPERTY_DEVICE_LOCAL,
        extent,
        sample_count: samples,
        format,
        usage: IMAGE_USAGE_TRANSIENT_ATTACHMENT | IMAGE_USAGE_COLOR_ATTACHMENT,
        layout: ImageLayout::ColorAttachmentOptimal,
        aspect: ImageAspect::Color,
    }
}

pub open spec fn spec_depth_texture(depth_format: i32, extent: Extent2D, samples: u32) -> TextureParams {
    TextureParams {
        memory_properties: MEMORY_PROPERTY_DEVICE_LOCAL,
        extent,
        sample_count: samples,
        format: depth_format,
        usage: IMAGE_USAGE_DEPTH_STENCIL_ATTACHMENT,
        layout: ImageLayout::DepthStencilAttachmentOptimal,
        aspect: ImageAspect::Depth,
    }
}

/// The barriers for the transitions that attachment images go through once
/// created: from undefined into the colour-attachment layout, or into the
/// depth/stencil layout. There is none for any other pair of layouts.
pub open spec fn spec_layout_transition(old_layout: ImageLayout, new_layout: ImageLayout) -> Option<
    LayoutTransition,
> {
    match (old_layout, new_layout) {
        (ImageLayout::Undefined, ImageLayout::ColorAttachmentOptimal) => Some(
            LayoutTransition {
                src_access_mask: 0,
                dst_access_mask: ACCESS_COLOR_ATTACHMENT_READ | ACCESS_COLOR_ATTACHMENT_WRITE,
                src_stage_mask: PIPELINE_STAGE_TOP_OF_PIPE,
                dst_stage_mask: PIPELINE_STAGE_COLOR_ATTACHMENT_OUTPUT,
            },
        ),
        (ImageLayout::Undefined, ImageLayout::DepthStencilAttachmentOptimal) => Some(
            LayoutTransition {
                src_access_mask: 0,
                dst_access_mask: ACCESS_DEPTH_STENCIL_ATTACHMENT_READ
                    | ACCESS_DEPTH_STENCIL_ATTACHMENT_WRITE,
                src_stage_mask: PIPELINE_STAGE_TOP_OF_PIPE,
                dst_stage_mask: PIPELINE_STAGE_EARLY_FRAGMENT_TESTS,
            },
        ),
        _ => None,
    }
}

/// The barrier for moving an image from `old_layout` to `new_layout`, if
/// that transition is one the attachment images go through.
pub fn layout_transition(old_layout: ImageLayout, new_layout: ImageLayout) -> (r: Option<
    LayoutTransition,
>)
    ensures
        r == spec_layout_transition(old_layout, new_layout),
{
    match (old_layout, new_layout) {
        (ImageLayout::Undefined, ImageLayout::ColorAttachmentOptimal) => Some(
            LayoutTransition {
                src_access_mask: 0,
                dst_access_mask: ACCESS_COLOR_ATTACHMENT_READ | ACCESS_COLOR_ATTACHMENT_WRITE,
                src_stage_mask: PIPELINE_STAGE_TOP_OF_PIPE,
                dst_stage_mask: PIPELINE_STAGE_COLOR_ATTACHMENT_OUTPUT,
            },
        ),
        (ImageLayout::Undefined, ImageLayout::DepthStencilAttachmentOptimal) => Some(
            LayoutTransition {
                src_access_mask: 0,
                dst_access_mask: ACCESS_DEPTH_STENCIL_ATTACHMENT_READ
                    | ACCESS_DEPTH_STENCIL_ATTACHMENT_WRITE,
                src_stage_mask: PIPELINE_STAGE_TOP_OF_PIPE,
                dst_stage_mask: PIPELINE_STAGE_EARLY_FRAGMENT_TESTS,
            },
        ),
        _ => None,
    }
}

/// The attachments, subpass and dependency of the render pass. Attachment 0
/// is the colour target, 1 the depth target and, when multisampling, 2 the
/// resolve target.
pub fn create_render_pass(format: i32, depth_format: i32, msaa_samples: u32) -> (r: RenderPassLayout)
    ensures
        r.attachments@ == spec_attachments(format, depth_format, msaa_samples),
        r.subpass.color_attachments@ == seq![
            AttachmentReference { attachment: 0, layout: ImageLayout::ColorAttachmentOptimal },
        ],
        r.subpass.depth_stencil_attachment == (AttachmentReference {
            attachment: 1,
            layout: ImageLayout::DepthStencilAttachmentOptimal,
        }),
        r.subpass.resolve_attachments@ == if is_multisampled(msaa_samples) {
            seq![AttachmentReference { attachment: 2, layout: ImageLayout::ColorAttachmentOptimal }]
        } else {
            Seq::<AttachmentReference>::empty()
        },
        r.dependency == spec_dependency(),
{
    let multisampled = msaa_samples != SAMPLE_COUNT_1;
    let final_image_layout = if multisampled {
        ImageLayout::ColorAttachmentOptimal
    } else {
        ImageLayout::PresentSrc
    };
    let mut attachments: Vec<AttachmentDescription> = Vec::new();
    attachments.push(
        AttachmentDescription {
            format,
            samples: msaa_samples,
            load_op: LoadOp::Clear,
            store_op: StoreOp::Store,
            stencil_load_op: LoadOp::Load,
            stencil_store_op: StoreOp::Store,
            initial_layout: ImageLayout::Undefined,
            final_layout: final_image_layout,
        },
    );
    attachments.push(
        AttachmentDescription {
            format: depth_format,
            samples: msaa_samples,
            load_op: LoadOp::Clear,
            store_op: StoreOp::DontCare,
            stencil_load_op: LoadOp::DontCare,
            stencil_store_op: StoreOp::DontCare,
            initial_layout: ImageLayout::Undefined,
            final_layout: ImageLayout::DepthStencilAttachmentOptimal,
        },
    );
    let mut resolve_attachments: Vec<AttachmentReference> = Vec::new();
    if multisampled {
        attachments.push(
            AttachmentDescription {
                format,
                samples: SAMPLE_COUNT_1,
                load_op: LoadOp::DontCare,
                store_op: StoreOp::Store,
                stencil_load_op: LoadOp::DontCare,
                stencil_store_op: StoreOp::DontCare,
                initial_layout: ImageLayout::Undefined,
                final_layout: ImageLayout::PresentSrc,
            },
        );
        resolve_attachments.push(
            AttachmentReference { attachment: 2, layout: ImageLayout::ColorAttachmentOptimal },
        );
    }
    let mut color_attachments: Vec<AttachmentReference> = Vec::new();
    color_attachments.push(
        AttachmentReference { attachment: 0, layout: ImageLayout::ColorAttachmentOptimal },
    );
    let subpass = SubpassDescription {
        color_attachments,
        depth_stencil_attachment: AttachmentReference {
            attachment: 1,
            layout: ImageLayout::DepthStencilAttachmentOptimal,
        },
        resolve_attachments,
    };
    let dependency = SubpassDependency {
        src_subpass: SUBPASS_EXTERNAL,
        dst_subpass: 0,
        src_stage_mask: PIPELINE_STAGE_COLOR_ATTACHMENT_OUTPUT,
        src_access_mask: 0,
        dst_stage_mask: PIPELINE_STAGE_COLOR_ATTACHMENT_OUTPUT,
        dst_access_mask: ACCESS_COLOR_ATTACHMENT_READ | ACCESS_COLOR_ATTACHMENT_WRITE,
    };
    proof {
        assert(attachments@ =~= spec_attachments(format, depth_format, msaa_samples));
    }
    RenderPassLayout { attachments, subpass, dependency }
}

/// The multisampled colour image: device-local, transient, moved into the
/// colour-attachment layout and viewed as colour.
pub fn create_color_texture(format: i32, extent: Extent2D, msaa_samples: u32) -> (r: TextureParams)
    ensures
        r == spec_color_texture(format, extent, msaa_samples),
{
    TextureParams {
        memory_properties: MEMORY_PROPERTY_DEVICE_LOCAL,
        extent,
        sample_count: msaa_samples,
        format,
        usage: IMAGE_USAGE_TRANSIENT_ATTACHMENT | IMAGE_USAGE_COLOR_ATTACHMENT,
        layout: ImageLayout::ColorAttachmentOptimal,
        aspect: ImageAspect::Color,
    }
}

/// The depth image: device-local, moved into the depth/stencil layout and
/// viewed as depth.
pub fn create_depth_texture(depth_format: i32, extent: Extent2D, msaa_samples: u32) -> (r:
    TextureParams)
    ensures
        r == spec_depth_texture(depth_format, extent, msaa_samples),
{
    TextureParams {
        memory_properties: MEMORY_PROPERTY_DEVICE_LOCAL,
        extent,
        sample_count: msaa_samples,
        format: depth_format,
        usage: IMAGE_USAGE_DEPTH_STENCIL_ATTACHMENT,
        layout: ImageLayout::DepthStencilAttachmentOptimal,
        aspect: ImageAspect::Depth,
    }
}

impl RenderPassDescription {
    /// The render pass for images of `extent` in `format`, with a depth
    /// target in `depth_format`, taking `msaa_samples` samples per pixel.
    pub fn create(extent: Extent2D, format: i32, depth_format: i32, msaa_samples: u32) -> (r: Self)
        ensures
            r.layout.attachments@ == spec_attachments(format, depth_format, msaa_samples),
            r.layout.subpass.color_attachments@ == seq![
                AttachmentReference { attachment: 0, layout: ImageLayout::ColorAttachmentOptimal },
            ],
            r.layout.subpass.depth_stencil_attachment == (AttachmentReference {
                attachment: 1,
                layout: ImageLayout::DepthStencilAttachmentOptimal,
            }),
            r.layout.subpass.resolve_attachments@ == if is_multisampled(msaa_samples) {
                seq![
                    AttachmentReference {
                        attachment: 2,
                        layout: ImageLayout::ColorAttachmentOptimal,
                    },
                ]
            } else {
                Seq::<AttachmentReference>::empty()
            },
            r.layout.dependency == spec_dependency(),
            r.color_texture == if is_multisampled(msaa_samples) {
                Some(spec_color_texture(format, extent, msaa_samples))
            } else {
                None::<TextureParams>
            },
            r.depth_texture == spec_depth_texture(depth_format, extent, msaa_samples),
    {
        let layout = create_render_pass(format, depth_format, msaa_samples);
        let color_texture = if msaa_samples == SAMPLE_COUNT_1 {
            None
        } else {
            Some(create_color_texture(format, extent, msaa_samples))
        };
        let depth_texture = create_depth_texture(depth_format, extent, msaa_samples);
        RenderPassDescription { layout, color_texture, depth_texture }
    }

    pub fn color_attachment(&self) -> (r: Option<TextureParams>)
        ensures
            r == self.color_texture,
    {
        self.color_texture
    }

    pub fn depth_attachment(&self) -> (r: TextureParams)
        ensures
            r == self.depth_texture,
    {
        self.depth_texture
    }
}

} // verus!

use vstd::prelude::*;
use crate::physical_device::QueueFamilyIndices;
use crate::swapchain_support::{
    Extent2D, PresentMode, SurfaceFormat, SwapchainSupportDetails, spec_optimal_extent,
    spec_optimal_image_count, spec_optimal_present_mode, spec_optimal_surface_format,
};

verus! {

/// Whether swapchain images are owned by one queue family at a time or shared
/// by several.
#[derive(Clone, Copy, Debug, PartialEq, Eq, Structural)]
pub enum SharingMode {
    Exclusive,
    Concurrent,
}

/// What acquiring or presenting a swapchain image reported.
#[derive(Clone, Copy, Debug, PartialEq, Eq, Structural)]
pub enum PresentOutcome {
    Optimal,
    /// The image was presented, but the swapchain no longer matches the
    /// surface exactly.
    Suboptimal,
    /// The swapchain no longer matches the surface and cannot be used.
    OutOfDate,
}

/// One step of releasing a swapchain, in the order they must run. The index
/// picks the framebuffer or image view.
#[derive(Clone, Copy, Debug, PartialEq, Eq, Structural)]
pub enum SwapchainTeardown {
    DestroyFramebuffer(usize),
    DestroyImageView(usize),
    DestroySwapchain,
}

/// Everything negotiated for one swapchain: what it is created with.
pub struct SwapchainConfig {
    pub format: SurfaceFormat,
    pub present_mode: PresentMode,
    pub extent: Extent2D,
    pub image_count: u32,
    /// Raw transform flags, the surface's current transform.
    pub pre_transform: u32,
    pub sharing_mode: SharingMode,
    /// The families that share the images; empty when they are exclusive.
    pub queue_family_indices: Vec<u32>,
}

/// Concurrent sharing between the graphics and the present family when they
/// differ, else exclusive ownership with no family list.
pub open spec fn spec_sharing(indices: QueueFamilyIndices) -> (SharingMode, Seq<u32>) {
    if indices.graphics_family != indices.present_family {
        (SharingMode::Concurrent, seq![indices.graphics_family, indices.present_family])
    } else {
        (SharingMode::Exclusive, Seq::<u32>::empty())
    }
}

/// The views a framebuffer is built from: with a multisampled colour target,
/// that target, the depth target and the swapchain image (the resolve
/// target); otherwise the swapchain image and the depth target.
pub open spec fn spec_framebuffer_attachments(
    color_view: Option<u64>,
    depth_view: u64,
    image_view: u64,
) -> Seq<u64> {
    match color_view {
        Some(c) => seq![c, depth_view, image_view],
        None => seq![image_view, depth_view],
    }
}

/// The swapchain is rebuilt, against fresh support details, when
/// presentation reports it suboptimal or out of date, or when the window was
/// resized.
pub fn must_recreate(outcome: PresentOutcome, window_resized: bool) -> (r: bool)
    ensures
        r == (outcome != PresentOutcome::Optimal || window_resized),
{
    window_resized || match outcome {
        PresentOutcome::Optimal => false,
        PresentOutcome::Suboptimal => true,
        PresentOutcome::OutOfDate => true,
    }
}

/// Every framebuffer, then every image view, then the swapchain that owns
/// the images they show.
pub open spec fn spec_swapchain_teardown(framebuffers: nat, image_views: nat) -> Seq<
    SwapchainTeardown,
> {
    Seq::new(framebuffers, |i: int| SwapchainTeardown::DestroyFramebuffer(i as usize)) + Seq::new(
        image_views,
        |i: int| SwapchainTeardown::DestroyImageView(i as usize),
    ) + seq![SwapchainTeardown::DestroySwapchain]
}

/// How a swapchain with this many framebuffers and image views is released:
/// the framebuffers and views before the swapchain itself.
pub fn swapchain_teardown(framebuffers: usize, image_views: usize) -> (r: Vec<SwapchainTeardown>)
    ensures
        r@ == spec_swapchain_teardown(framebuffers as nat, image_views as nat),
{
    let ghost fb_steps = Seq::new(
        framebuffers as nat,
        |i: int| SwapchainTeardown::DestroyFramebuffer(i as usize),
    );
    let ghost view_steps = Seq::new(
        image_views as nat,
        |i: int| SwapchainTeardown::DestroyImageView(i as usize),
    );
    let mut steps: Vec<SwapchainTeardown> = Vec::new();
    let mut i: usize = 0;
    while i < framebuffers
        invariant
            i <= framebuffers,
            fb_steps == Seq::new(
                framebuffers as nat,
                |k: int| SwapchainTeardown::DestroyFramebuffer(k as usize),
            ),
            steps@ =~= fb_steps.subrange(0, i as int),
        decreases framebuffers - i,
    {
        steps.push(SwapchainTeardown::DestroyFramebuffer(i));
        i = i + 1;
        proof {
            assert(steps@ =~= fb_steps.subrange(0, i as int));
        }
    }
    let mut j: usize = 0;
    while j < image_views
        invariant
            j <= image_views,
            fb_steps == Seq::new(
                framebuffers as nat,
                |k: int| SwapchainTeardown::DestroyFramebuffer(k as usize),
            ),
            view_steps == Seq::new(
                image_views as nat,
                |k: int| SwapchainTeardown::DestroyImageView(k as usize),
            ),
            steps@ =~= fb_steps + view_steps.subrange(0, j as int),
        decreases image_views - j,
    {
        steps.push(SwapchainTeardown::DestroyImageView(j));
        j = j + 1;
        proof {
            assert(steps@ =~= fb_steps + view_steps.subrange(0, j as int));
        }
    }
    steps.push(SwapchainTeardown::DestroySwapchain);
    proof {
        assert(steps@ =~= spec_swapchain_teardown(framebuffers as nat, image_views as nat));
    }
    steps
}

/// How the images are shared between the graphics and the present family.
pub fn image_sharing(indices: QueueFamilyIndices) -> (r: (SharingMode, Vec<u32>))
    ensures
        (r.0, r.1@) == spec_sharing(indices),
{
    let mut families: Vec<u32> = Vec::new();
    if indices.graphics_family != indices.present_family {
        families.push(indices.graphics_family);
        families.push(indices.present_family);
        proof {
            assert(families@ =~= seq![indices.graphics_family, indices.present_family]);
        }
        (SharingMode::Concurrent, families)
    } else {
        proof {
            assert(families@ =~= Seq::<u32>::empty());
        }
        (SharingMode::Exclusive, families)
    }
}

/// The views of one framebuffer, in the order of the render pass's
/// attachments.
pub fn framebuffer_attachments(color_view: Option<u64>, depth_view: u64, image_view: u64) -> (r: Vec<
    u64,
>)
    ensures
        r@ == spec_framebuffer_attachments(color_view, depth_view, image_view),
{
    let mut attachments: Vec<u64> = Vec::new();
    match color_view {
        Some(c) => {
            attachments.push(c);
            attachments.push(depth_view);
            attachments.push(image_view);
        },
        None => {
            attachments.push(image_view);
            attachments.push(depth_view);
        },
    }
    proof {
        assert(attachments@ =~= spec_framebuffer_attachments(color_view, depth_view, image_view));
    }
    attachments
}

impl SwapchainConfig {
    /// Negotiates format, present mode, extent and image count from a fresh
    /// snapshot of what the surface supports, and the sharing of images
    /// between the selected queue families.
    pub fn negotiate(
        support_details: &SwapchainSupportDetails,
        queue_family_indices: QueueFamilyIndices,
        preferred_dimensions: [u32; 2],
    ) -> (r: Self)
        requires
            support_details.formats@.len() > 0,
            support_details.capabilities.min_image_count < u32::MAX,
        ensures
            r.format == spec_optimal_surface_format(support_details.formats@),
            r.present_mode == spec_optimal_present_mode(support_details.present_modes@),
            r.extent == spec_optimal_extent(
                support_details.capabilities,
                preferred_dimensions@[0],
                preferred_dimensions@[1],
            ),
            r.image_count == spec_optimal_image_count(support_details.capabilities),
            r.pre_transform == support_details.capabilities.current_transform,
            (r.sharing_mode, r.queue_family_indices@) == spec_sharing(queue_family_indices),
    {
        let format = support_details.optimal_surface_format();
        let present_mode = support_details.optimal_present_mode();
        let extent = support_details.optimal_extent(preferred_dimensions);
        let image_count = support_details.optimal_image_count();
        let (sharing_mode, families) = image_sharing(queue_family_indices);
        SwapchainConfig {
            format,
            present_mode,
            extent,
            image_count,
            pre_transform: support_details.capabilities.current_transform,
            sharing_mode,
            queue_family_indices: families,
        }
    }

    pub fn format(&self) -> (r: SurfaceFormat)
        ensures
            r == self.format,
    {
        self.format
    }

    pub fn present_mode(&self) -> (r: PresentMode)
        ensures
            r == self.present_mode,
    {
        self.present_mode
    }

    pub fn extent(&self) -> (r: Extent2D)
        ensures
            r == self.extent,
    {
        self.extent
    }

    pub fn image_count(&self) -> (r: u32)
        ensures
            r == self.image_count,
    {
        self.image_count
    }
}

} // verus!

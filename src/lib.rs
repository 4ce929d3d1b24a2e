//! GPU context and resource-lifecycle logic: device and queue selection,
//! swapchain negotiation, render-pass layout, memory-type selection and the
//! ordering rules that keep GPU objects valid while they are torn down.
//!
//! Every value here is plain data: handles are carried as raw integers and
//! Vulkan enumerations as the library's own types, so that the decisions can
//! be stated and proved. The driver calls themselves are made by the caller.

pub mod buffer;
pub mod device;
pub mod instance;
pub mod memory;
pub mod physical_device;
pub mod render_pass;
pub mod swapchain;
pub mod swapchain_support;

pub use swapchain_support::{
    Extent2D, PresentMode, SurfaceCapabilities, SurfaceFormat, SwapchainSupportDetails,
};
pub use physical_device::{
    DeviceCandidate, PhysicalDevice, ProbeError, QueueFamilyIndices, QueueFamilySupport,
    all_names_in, check_extension_support, find_queue_families, is_device_suitable,
};
pub use memory::{
    MemoryAllocation, MemoryError, MemoryProperties, MemoryRequirements,
    MEMORY_PROPERTY_DEVICE_LOCAL, MEMORY_PROPERTY_HOST_COHERENT, MEMORY_PROPERTY_HOST_VISIBLE,
};
pub use render_pass::{
    AttachmentDescription, AttachmentReference, ImageAspect, ImageLayout, LoadOp,
    RenderPassDescription, RenderPassLayout, StoreOp, SubpassDependency, SubpassDescription,
    LayoutTransition, TextureParams, create_color_texture, create_depth_texture, create_render_pass,
    layout_transition, SAMPLE_COUNT_1,
};
pub use swapchain::{
    PresentOutcome, SharingMode, SwapchainConfig, SwapchainTeardown, framebuffer_attachments,
    image_sharing, must_recreate, swapchain_teardown,
};
pub use device::queue_create_families;
pub use instance::{InstanceConfig, ValidationInfo, supported_layers};
pub use buffer::{Buffer, BufferCopy, BufferTeardown};

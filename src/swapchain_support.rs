use vstd::prelude::*;

verus! {

/// Raw value of the 8-bit BGRA sRGB colour format.
pub const FORMAT_B8G8R8A8_SRGB: i32 = 50;

/// Raw value of the non-linear sRGB colour space.
pub const COLOR_SPACE_SRGB_NONLINEAR: i32 = 0;

/// Width and height of a surface or image, in pixels.
#[derive(Clone, Copy, Debug, PartialEq, Eq, Structural)]
pub struct Extent2D {
    pub width: u32,
    pub height: u32,
}

/// A pixel format paired with the colour space it is presented in, as raw
/// driver values.
#[derive(Clone, Copy, Debug, PartialEq, Eq, Structural)]
pub struct SurfaceFormat {
    pub format: i32,
    pub color_space: i32,
}

/// How presented images are queued for display.
#[derive(Clone, Copy, Debug, PartialEq, Eq, Structural)]
pub enum PresentMode {
    Immediate,
    Mailbox,
    Fifo,
    FifoRelaxed,
    /// Any other mode the driver reports, by its raw value.
    Other(i32),
}

/// What a surface reports about the images it can present.
#[derive(Clone, Copy, Debug, PartialEq, Eq, Structural)]
pub struct SurfaceCapabilities {
    pub min_image_count: u32,
    /// Zero means that the number of images is unbounded.
    pub max_image_count: u32,
    pub current_extent: Extent2D,
    pub min_image_extent: Extent2D,
    pub max_image_extent: Extent2D,
    /// Raw transform flags, handed on unchanged to swapchain creation.
    pub current_transform: u32,
}

/// A snapshot of what a surface supports on one device, taken each time a
/// swapchain is (re)built.
pub struct SwapchainSupportDetails {
    pub capabilities: SurfaceCapabilities,
    pub formats: Vec<SurfaceFormat>,
    pub present_modes: Vec<PresentMode>,
}

/// The format that is preferred whenever the surface offers it.
pub open spec fn preferred_surface_format() -> SurfaceFormat {
    SurfaceFormat { format: FORMAT_B8G8R8A8_SRGB, color_space: COLOR_SPACE_SRGB_NONLINEAR }
}

/// The preferred format if it is offered, else the first one offered.
pub open spec fn spec_optimal_surface_format(formats: Seq<SurfaceFormat>) -> SurfaceFormat {
    if formats.contains(preferred_surface_format()) {
        preferred_surface_format()
    } else {
        formats[0]
    }
}

/// Mailbox if offered, else FIFO if offered, else immediate.
pub open spec fn spec_optimal_present_mode(modes: Seq<PresentMode>) -> PresentMode {
    if modes.contains(PresentMode::Mailbox) {
        PresentMode::Mailbox
    } else if modes.contains(PresentMode::Fifo) {
        PresentMode::Fifo
    } else {
        PresentMode::Immediate
    }
}

/// The value that marks a current extent as undefined: the surface then
/// takes whatever extent the swapchain is built with.
pub open spec fn is_undefined_extent(e: Extent2D) -> bool {
    e.width == u32::MAX && e.height == u32::MAX
}

/// `preferred` brought down to `hi`, then up to `lo`.
pub open spec fn clamp_dimension(preferred: u32, lo: u32, hi: u32) -> u32 {
    let capped = if preferred > hi { hi } else { preferred };
    if capped < lo { lo } else { capped }
}

/// The surface's own extent if it is defined, else the preferred dimensions
/// clamped into the surface's bounds.
pub open spec fn spec_optimal_extent(caps: SurfaceCapabilities, width: u32, height: u32) -> Extent2D {
    if !is_undefined_extent(caps.current_extent) {
        caps.current_extent
    } else {
        Extent2D {
            width: clamp_dimension(width, caps.min_image_extent.width, caps.max_image_extent.width),
            height: clamp_dimension(height, caps.min_image_extent.height, caps.max_image_extent.height),
        }
    }
}

/// One image more than the minimum, brought down to the maximum when the
/// surface has one.
pub open spec fn spec_optimal_image_count(caps: SurfaceCapabilities) -> int {
    let preferred = caps.min_image_count + 1;
    if caps.max_image_count > 0 && preferred > caps.max_image_count {
        caps.max_image_count as int
    } else {
        preferred
    }
}

/// Capabilities that a conforming surface reports: the maximum image count
/// is either unbounded or no smaller than the minimum.
pub open spec fn image_counts_consistent(caps: SurfaceCapabilities) -> bool {
    caps.max_image_count == 0 || caps.max_image_count >= caps.min_image_count
}

/// The negotiated image count never falls below the surface's minimum and,
/// when the surface bounds the count, never exceeds that bound; an unbounded
/// surface gets one image more than its minimum.
pub proof fn lemma_image_count_within_bounds(caps: SurfaceCapabilities)
    requires
        caps.min_image_count < u32::MAX,
        image_counts_consistent(caps),
    ensures
        caps.min_image_count <= spec_optimal_image_count(caps),
        caps.max_image_count != 0 ==> spec_optimal_image_count(caps) <= if caps.max_image_count
            >= caps.min_image_count {
            caps.max_image_count as int
        } else {
            caps.min_image_count as int
        },
        caps.max_image_count == 0 ==> spec_optimal_image_count(caps) == caps.min_image_count + 1,
{
}

fn contains_format(formats: &Vec<SurfaceFormat>, wanted: SurfaceFormat) -> (r: bool)
    ensures
        r == formats@.contains(wanted),
{
    let mut i: usize = 0;
    while i < formats.len()
        invariant
            i <= formats@.len(),
            forall|j: int| 0 <= j < i ==> formats@[j] != wanted,
        decreases formats@.len() - i,
    {
        if formats[i] == wanted {
            return true;
        }
        i = i + 1;
    }
    false
}

fn contains_present_mode(modes: &Vec<PresentMode>, wanted: PresentMode) -> (r: bool)
    ensures
        r == modes@.contains(wanted),
{
    let mut i: usize = 0;
    while i < modes.len()
        invariant
            i <= modes@.len(),
            forall|j: int| 0 <= j < i ==> modes@[j] != wanted,
        decreases modes@.len() - i,
    {
        if modes[i] == wanted {
            return true;
        }
        i = i + 1;
    }
    false
}

impl SwapchainSupportDetails {
    /// Gathers what was queried from the surface into one snapshot.
    pub fn new(
        capabilities: SurfaceCapabilities,
        formats: Vec<SurfaceFormat>,
        present_modes: Vec<PresentMode>,
    ) -> (r: Self)
        ensures
            r.capabilities == capabilities,
            r.formats@ == formats@,
            r.present_modes@ == present_modes@,
    {
        SwapchainSupportDetails { capabilities, formats, present_modes }
    }

    /// 8-bit BGRA sRGB in the non-linear colour space if the surface offers
    /// it, else the first format it reports.
    pub fn optimal_surface_format(&self) -> (r: SurfaceFormat)
        requires
            self.formats@.len() > 0,
        ensures
            r == spec_optimal_surface_format(self.formats@),
    {
        let preferred = SurfaceFormat {
            format: FORMAT_B8G8R8A8_SRGB,
            color_space: COLOR_SPACE_SRGB_NONLINEAR,
        };
        if contains_format(&self.formats, preferred) {
            preferred
        } else {
            self.formats[0]
        }
    }

    /// Mailbox if offered, else FIFO if offered, else immediate.
    pub fn optimal_present_mode(&self) -> (r: PresentMode)
        ensures
            r == spec_optimal_present_mode(self.present_modes@),
    {
        if contains_present_mode(&self.present_modes, PresentMode::Mailbox) {
            PresentMode::Mailbox
        } else if contains_present_mode(&self.present_modes, PresentMode::Fifo) {
            PresentMode::Fifo
        } else {
            PresentMode::Immediate
        }
    }

    /// The surface's current extent when it is defined; otherwise the
    /// preferred `[width, height]` clamped into the surface's bounds.
    pub fn optimal_extent(&self, preferred_dimensions: [u32; 2]) -> (r: Extent2D)
        ensures
            r == spec_optimal_extent(
                self.capabilities,
                preferred_dimensions@[0],
                preferred_dimensions@[1],
            ),
    {
        let caps = self.capabilities;
        if caps.current_extent.width != u32::MAX || caps.current_extent.height != u32::MAX {
            return caps.current_extent;
        }
        let min = caps.min_image_extent;
        let max = caps.max_image_extent;
        let width = clamp(preferred_dimensions[0], min.width, max.width);
        let height = clamp(preferred_dimensions[1], min.height, max.height);
        Extent2D { width, height }
    }

    /// One image more than the surface's minimum, brought down to its maximum
    /// when that is nonzero.
    pub fn optimal_image_count(&self) -> (r: u32)
        requires
            self.capabilities.min_image_count < u32::MAX,
        ensures
            r == spec_optimal_image_count(self.capabilities),
    {
        let max = self.capabilities.max_image_count;
        let mut preferred = self.capabilities.min_image_count + 1;
        if max > 0 && preferred > max {
            preferred = max;
        }
        preferred
    }

    pub fn capabilities(&self) -> (r: &SurfaceCapabilities)
        ensures
            *r == self.capabilities,
    {
        &self.capabilities
    }

    pub fn formats(&self) -> (r: &Vec<SurfaceFormat>)
        ensures
            r@ == self.formats@,
    {
        &self.formats
    }

    pub fn present_modes(&self) -> (r: &Vec<PresentMode>)
        ensures
            r@ == self.present_modes@,
    {
        &self.present_modes
    }
}

fn clamp(preferred: u32, lo: u32, hi: u32) -> (r: u32)
    ensures
        r == clamp_dimension(preferred, lo, hi),
{
    let capped = if preferred > hi { hi } else { preferred };
    if capped < lo { lo } else { capped }
}

} // verus!

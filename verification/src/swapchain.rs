//! The presentable image chain of a window surface, and how one is set up.

use vstd::prelude::*;
use vulkano::swapchain::CompositeAlpha;
use vulkano::swapchain::SupportedCompositeAlpha;

verus! {

/// A lightweight name for one image of a swapchain. The generation tells
/// which incarnation of the chain the index belongs to.
#[derive(Clone, Copy, Debug, PartialEq, Eq, Structural)]
pub struct ImageHandle {
    pub index: usize,
    pub generation: u64,
}

/// The image chain that backs a window surface: how large its images are,
/// how many there are, and how often the chain has been recreated.
#[derive(Clone, Copy, Debug, PartialEq, Eq)]
pub struct SwapchainState {
    pub extent: [u32; 2],
    pub image_count: usize,
    pub generation: u64,
}

/// The generation that follows `generation`. The counter wraps.
pub open spec fn next_generation(generation: u64) -> u64 {
    if generation == u64::MAX {
        0
    } else {
        (generation + 1) as u64
    }
}

impl SwapchainState {
    /// The chain that replaces `self` when it is recreated.
    pub open spec fn spec_recreated(self, extent: [u32; 2], image_count: usize) -> SwapchainState {
        SwapchainState { extent, image_count, generation: next_generation(self.generation) }
    }

    /// Whether `handle` names an image of this incarnation of the chain.
    pub open spec fn spec_is_current(&self, handle: ImageHandle) -> bool {
        handle.generation == self.generation && handle.index < self.image_count
    }

    /// A freshly created chain of `image_count` images of size `extent`.
    pub fn new(extent: [u32; 2], image_count: usize) -> (s: Self)
        ensures
            s == (SwapchainState { extent, image_count, generation: 0 }),
    {
        SwapchainState { extent, image_count, generation: 0 }
    }

    /// The chain that replaces `self` when it is recreated with images of
    /// size `extent`: the generation moves on, so handles given out before
    /// are no longer current.
    #[verifier::when_used_as_spec(spec_recreated)]
    pub fn recreated(self, extent: [u32; 2], image_count: usize) -> (s: Self)
        ensures
            s == self.spec_recreated(extent, image_count),
    {
        SwapchainState { extent, image_count, generation: self.generation.wrapping_add(1) }
    }

    /// The handle of image `index` in this incarnation of the chain.
    pub fn handle(&self, index: usize) -> (h: ImageHandle)
        ensures
            h == (ImageHandle { index, generation: self.generation }),
    {
        ImageHandle { index, generation: self.generation }
    }

    /// Whether `handle` names an image of this incarnation of the chain.
    #[verifier::when_used_as_spec(spec_is_current)]
    pub fn is_current(&self, handle: ImageHandle) -> (b: bool)
        ensures
            b == self.spec_is_current(handle),
    {
        handle.generation == self.generation && handle.index < self.image_count
    }
}

/// How the alpha channel of a presented image is treated.
#[derive(Clone, Copy, Debug, PartialEq, Eq, Structural)]
pub enum AlphaMode {
    Opaque,
    PreMultiplied,
    PostMultiplied,
    Inherit,
}

/// Which alpha modes a surface supports.
#[derive(Clone, Copy, Debug, PartialEq, Eq, Structural)]
pub struct AlphaSupport {
    pub opaque: bool,
    pub pre_multiplied: bool,
    pub post_multiplied: bool,
    pub inherit: bool,
}

/// What a surface reports of itself, as far as setting up a swapchain reads it.
#[derive(Clone, Copy, Debug, PartialEq, Eq, Structural)]
pub struct SurfaceCapabilities {
    /// The least number of images a swapchain on this surface must have.
    pub min_image_count: u32,
    /// How many formats the surface lists as supported.
    pub format_count: usize,
    /// The alpha modes the surface supports.
    pub composite_alpha: AlphaSupport,
}

/// The settings a swapchain is created with.
#[derive(Clone, Copy, Debug, PartialEq, Eq)]
pub struct SwapchainConfig {
    /// How many images to ask for.
    pub image_count: u32,
    /// Which of the surface's supported formats to use, by position.
    pub format_index: usize,
    /// The size of each image.
    pub extent: [u32; 2],
    /// How the alpha channel is treated.
    pub composite_alpha: AlphaMode,
}

/// Why a swapchain could not be set up or recreated.
#[derive(Clone, Copy, Debug, PartialEq, Eq, Structural)]
pub enum SwapchainError {
    /// The surface lists no format.
    NoSupportedFormat,
    /// The surface supports no alpha mode.
    NoCompositeAlpha,
    /// The surface does not support images of the window's size.
    UnsupportedDimensions,
    /// The device refused for another reason.
    DeviceFailure,
}

/// What the device answered when asked to recreate the swapchain.
#[derive(Clone, Copy, Debug, PartialEq, Eq, Structural)]
pub enum RecreateOutcome {
    /// A new chain of `image_count` images exists.
    Recreated { image_count: usize },
    /// The surface does not support images of the requested size.
    UnsupportedDimensions,
    /// Any other failure.
    Failed,
}

/// The first alpha mode that `support` lists, in the order opaque,
/// pre-multiplied, post-multiplied, inherit.
pub open spec fn first_alpha(support: AlphaSupport) -> Option<AlphaMode> {
    if support.opaque {
        Some(AlphaMode::Opaque)
    } else if support.pre_multiplied {
        Some(AlphaMode::PreMultiplied)
    } else if support.post_multiplied {
        Some(AlphaMode::PostMultiplied)
    } else if support.inherit {
        Some(AlphaMode::Inherit)
    } else {
        None
    }
}

/// Calls vulkano's `SupportedCompositeAlpha::iter` and takes the first item
/// of the iterator. Trusted: the iterator yields the supported modes in the
/// order opaque, pre-multiplied, post-multiplied, inherit, so its first item
/// is the first of these that `support` lists, and there is none when
/// `support` lists none.
#[verifier::external_body]
fn first_supported_alpha(support: AlphaSupport) -> (mode: Option<AlphaMode>)
    ensures
        mode == first_alpha(support),
{
    let modes = SupportedCompositeAlpha {
        opaque: support.opaque,
        pre_multiplied: support.pre_multiplied,
        post_multiplied: support.post_multiplied,
        inherit: support.inherit,
    };
    match modes.iter().next() {
        None => None,
        Some(CompositeAlpha::Opaque) => Some(AlphaMode::Opaque),
        Some(CompositeAlpha::PreMultiplied) => Some(AlphaMode::PreMultiplied),
        Some(CompositeAlpha::PostMultiplied) => Some(AlphaMode::PostMultiplied),
        Some(CompositeAlpha::Inherit) => Some(AlphaMode::Inherit),
    }
}

/// The settings that `swapchain_config` chooses, or why it chooses none.
pub open spec fn chosen_config(caps: SurfaceCapabilities, window_size: [u32; 2]) -> Result<
    SwapchainConfig,
    SwapchainError,
> {
    if caps.format_count == 0 {
        Err(SwapchainError::NoSupportedFormat)
    } else {
        match first_alpha(caps.composite_alpha) {
            None => Err(SwapchainError::NoCompositeAlpha),
            Some(alpha) => Ok(
                SwapchainConfig {
                    image_count: caps.min_image_count,
                    format_index: 0,
                    extent: window_size,
                    composite_alpha: alpha,
                },
            ),
        }
    }
}

/// Chooses the settings for a new swapchain on a surface with capabilities
/// `caps`, in a window whose inner size is `window_size`: the least image
/// count the surface allows, the first format it lists, the first alpha mode
/// it supports, and images as large as the window.
pub fn swapchain_config(caps: &SurfaceCapabilities, window_size: [u32; 2]) -> (r: Result<
    SwapchainConfig,
    SwapchainError,
>)
    ensures
        r == chosen_config(*caps, window_size),
{
    if caps.format_count == 0 {
        return Err(SwapchainError::NoSupportedFormat);
    }
    match first_supported_alpha(caps.composite_alpha) {
        None => Err(SwapchainError::NoCompositeAlpha),
        Some(alpha) => Ok(
            SwapchainConfig {
                image_count: caps.min_image_count,
                format_index: 0,
                extent: window_size,
                composite_alpha: alpha,
            },
        ),
    }
}

} // verus!

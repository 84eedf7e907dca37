//! The presentation surface's configuration: the swapchain descriptor the
//! device keeps, and a model of the swapchain built from it.
//!
//! The model distinguishes two things the driver conflates: the
//! configuration a swapchain was created with (its descriptor), and the
//! identity of the created object (its generation, bumped on every
//! rebuild). Two swapchains are equivalent when their configurations
//! agree, whatever their generations.

use vstd::prelude::*;

verus! {

/// The pixel formats this renderer touches.
#[derive(Clone, Copy, Debug, PartialEq, Eq, Structural)]
pub enum TextureFormat {
    /// Blue, green, red, alpha, eight normalized bits each: the surface's
    /// format.
    Bgra8Unorm,
    /// A single eight-bit normalized channel: the pipeline's colour
    /// target format.
    R8Unorm,
}

/// How presented frames wait for the display.
#[derive(Clone, Copy, Debug, PartialEq, Eq, Structural)]
pub enum PresentMode {
    /// No waiting; frames may tear.
    Immediate,
    /// Low-latency triple buffering: the newest finished frame is shown.
    Mailbox,
    /// Classic vertical-sync queueing.
    Fifo,
}

/// What the swapchain's textures are used for.
#[derive(Clone, Copy, Debug, PartialEq, Eq, Structural)]
pub enum TextureUsage {
    /// The texture is drawn into as a render target.
    RenderAttachment,
}

/// The configuration a swapchain is created from.
#[derive(Clone, Copy, Debug, PartialEq, Eq, Structural)]
pub struct SwapChainDescriptor {
    pub usage: TextureUsage,
    pub format: TextureFormat,
    /// Width in pixels of the window's surface.
    pub width: u32,
    /// Height in pixels of the window's surface.
    pub height: u32,
    pub present_mode: PresentMode,
}

impl SwapChainDescriptor {
    /// The same configuration at another size.
    pub open spec fn with_size(self, width: u32, height: u32) -> SwapChainDescriptor {
        SwapChainDescriptor { width, height, ..self }
    }
}

/// The configuration this renderer always asks for: a render-attachment
/// surface in Bgra8Unorm, presented in low-latency mailbox mode, sized to
/// the window.
pub open spec fn surface_descriptor_spec(width: u32, height: u32) -> SwapChainDescriptor {
    SwapChainDescriptor {
        usage: TextureUsage::RenderAttachment,
        format: TextureFormat::Bgra8Unorm,
        width,
        height,
        present_mode: PresentMode::Mailbox,
    }
}

/// Builds the renderer's canonical swapchain descriptor for a window of
/// the given pixel size.
pub fn surface_descriptor(width: u32, height: u32) -> (d: SwapChainDescriptor)
    ensures
        d == surface_descriptor_spec(width, height),
{
    SwapChainDescriptor {
        usage: TextureUsage::RenderAttachment,
        format: TextureFormat::Bgra8Unorm,
        width,
        height,
        present_mode: PresentMode::Mailbox,
    }
}

/// A created swapchain: the configuration it was built from, and which
/// rebuild it is.
#[derive(Clone, Copy, Debug, PartialEq, Eq, Structural)]
pub struct SwapChain {
    /// The descriptor the swapchain was created with.
    pub config: SwapChainDescriptor,
    /// How many times the device has rebuilt the swapchain before this
    /// one.
    pub generation: u64,
}

/// Two swapchains are equivalent when they were created from the same
/// configuration, even if they are distinct objects.
pub open spec fn swap_chains_equivalent(a: SwapChain, b: SwapChain) -> bool {
    a.config == b.config
}

} // verus!
